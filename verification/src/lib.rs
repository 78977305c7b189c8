//! A verified control harness around an opaque microcontroller simulation
//! engine.
//!
//! The harness does not emulate instructions itself: it models the engine's
//! lifecycle, the discrete run-state the engine reports, the side-channel
//! status record kept for each handle, the firmware-loading capability and
//! the decisions of the serial bridge and the diagnostic hook.  The unsafe
//! foreign calls into the engine live outside this library; they feed the
//! engine's answers (state codes, resolved lines, log levels) into the
//! verified model as plain values.

use vstd::prelude::*;

pub mod ioctl;
pub mod logging;
pub mod uart;
mod flashable;

pub use flashable::Firmware;
pub use flashable::Flashable;
pub use flashable::flash_step;
pub use flashable::overwrite;
pub use flashable::lemma_overwrite_pointwise;
pub use flashable::lemma_flash_last_write_wins;

verus! {

/// The run-state of a simulated microcontroller: a closed mirror of the
/// engine's integer state codes.
#[derive(Copy, Clone, Debug, PartialEq, Eq, Structural)]
pub enum State {
    /// Before initialization is finished.
    Limbo,
    /// All is stopped, timers included.
    Stopped,
    /// Running freely.
    Running,
    /// Sleeping until an interrupt.
    Sleeping,
    /// Run one instruction.
    Step,
    /// The single instruction has run.
    StepDone,
    /// The simulation stopped gracefully.
    Done,
    /// The simulation crashed (watchdog fired).
    Crashed,
}

impl State {
    /// The fixed total mapping from the engine's state codes to run-states.
    pub open spec fn spec_of_code(code: int) -> State {
        if code == 0 {
            State::Limbo
        } else if code == 1 {
            State::Stopped
        } else if code == 2 {
            State::Running
        } else if code == 3 {
            State::Sleeping
        } else if code == 4 {
            State::Step
        } else if code == 5 {
            State::StepDone
        } else if code == 6 {
            State::Done
        } else {
            State::Crashed
        }
    }

    /// Maps an engine state code to a run-state.  A code outside the eight
    /// documented ones means the engine broke its own contract; callers at
    /// that boundary must treat it as fatal instead of coercing it.
    pub fn from_code(code: i32) -> (s: State)
        requires
            0 <= code <= 7,
        ensures
            s == State::spec_of_code(code as int),
    {
        match code {
            0 => State::Limbo,
            1 => State::Stopped,
            2 => State::Running,
            3 => State::Sleeping,
            4 => State::Step,
            5 => State::StepDone,
            6 => State::Done,
            _ => State::Crashed,
        }
    }

    /// The very first state of every handle.
    pub fn initial() -> (s: State)
        ensures
            s == State::Limbo,
    {
        State::Limbo
    }

    /// Which run-states count as a still-running simulation.
    pub open spec fn spec_is_running(self) -> bool {
        match self {
            State::Limbo => true,
            State::Stopped => false,
            State::Running => true,
            State::Sleeping => true,
            State::Step => true,
            State::StepDone => true,
            State::Done => false,
            State::Crashed => false,
        }
    }

    /// Checks if the state represents a running simulation, regardless of
    /// success or failure.
    pub fn is_running(&self) -> (r: bool)
        ensures
            r == self.spec_is_running(),
    {
        match *self {
            State::Limbo => true,
            State::Stopped => false,
            State::Running => true,
            State::Sleeping => true,
            State::Step => true,
            State::StepDone => true,
            State::Done => false,
            State::Crashed => false,
        }
    }
}

/// The side-channel status of a handle, kept by the harness because the
/// engine cannot express it natively.  The engine's reset callback updates
/// this record.
#[derive(Debug, PartialEq, Eq, Structural)]
pub struct Status {
    /// Whether the very first initial reset has been processed.
    pub powered_on: bool,
    /// The number of resets after the initial one.
    pub reset_count: u64,
}

impl Status {
    /// What one reset signal makes of the record: the very first signal a
    /// handle sees is the implicit startup reset, which only marks the
    /// record powered on; every later signal counts as a user-visible
    /// reset.
    pub open spec fn after_reset_signal(self) -> Status {
        if !self.powered_on {
            Status { powered_on: true, reset_count: self.reset_count }
        } else {
            Status { powered_on: true, reset_count: (self.reset_count + 1) as u64 }
        }
    }

    /// Whether the handle has been reset after it first started.
    pub open spec fn spec_has_reset(self) -> bool {
        self.reset_count > 0
    }

    /// Whether the microcontroller has been reset *after* it was first
    /// started.  The initial startup reset is not counted.
    pub fn has_reset(&self) -> (r: bool)
        ensures
            r == self.spec_has_reset(),
    {
        self.reset_count > 0
    }

    /// Processes one reset signal, as the engine-installed reset callback
    /// does.
    pub fn on_reset(&mut self)
        requires
            old(self).powered_on ==> old(self).reset_count < u64::MAX,
        ensures
            *final(self) == old(self).after_reset_signal(),
    {
        if !self.powered_on {
            self.powered_on = true;
        } else {
            self.reset_count = self.reset_count + 1;
        }
    }
}

impl Default for Status {
    /// The record a freshly constructed handle carries: already powered on
    /// (its startup reset is part of construction), with no user-visible
    /// reset yet.
    fn default() -> (s: Status)
        ensures
            s == (Status { powered_on: true, reset_count: 0u64 }),
    {
        Status { powered_on: true, reset_count: 0 }
    }
}

/// Why a handle could not be constructed.
#[derive(Copy, Clone, Debug, PartialEq, Eq, Structural)]
pub enum AvrError {
    /// The engine does not know the requested model name.
    UnknownModel,
}

/// One simulated microcontroller handle: the harness-side model of the
/// engine instance it owns.  The handle carries the cached run-state, the
/// status record, the model name, the clock frequency and the image of the
/// program memory the engine was given.  The foreign layer that owns the
/// engine instance itself drives this model with the engine's answers.
#[derive(Debug)]
pub struct Avr {
    /// The run-state last observed from the engine.
    pub current_state: State,
    /// The status record owned by this handle for its whole lifetime.
    pub status: Status,
    /// The model name the handle was created with.
    pub mcu_name: String,
    /// The clock frequency in hertz.
    pub frequency: u32,
    /// What has been flashed into program memory, from address zero.
    pub program: Vec<u8>,
    /// Whether the handle was told to shut down.  A terminated handle must
    /// not be driven any further.
    pub terminated: bool,
}

impl Avr {
    /// What a reset makes of the handle: the reset callback fires within
    /// the call and updates the status record; nothing else moves.
    pub open spec fn spec_reset(self) -> Avr {
        Avr { status: self.status.after_reset_signal(), ..self }
    }

    /// What one run cycle makes of the handle: the engine's returned state
    /// code becomes the cached run-state; nothing else moves.
    pub open spec fn spec_run(self, code: int) -> Avr {
        Avr { current_state: State::spec_of_code(code), ..self }
    }

    /// What termination makes of the handle.
    pub open spec fn spec_terminate(self) -> Avr {
        Avr { terminated: true, ..self }
    }

    /// A freshly created handle: powered on with no reset counted, in the
    /// initial run-state, at the default clock frequency, with nothing
    /// flashed yet.
    pub open spec fn spec_fresh(self, mcu_name: Seq<char>) -> bool {
        &&& self.current_state == State::Limbo
        &&& self.status == (Status { powered_on: true, reset_count: 0u64 })
        &&& self.mcu_name@ == mcu_name
        &&& self.frequency == 16_000_000u32
        &&& self.program@ == Seq::<u8>::empty()
        &&& !self.terminated
    }

    /// Creates a new handle for the named model.  `model_supported` is the
    /// engine's answer to resolving that name: construction succeeds if and
    /// only if the engine could make the model, and fails with
    /// `UnknownModel` otherwise.
    pub fn new(mcu_name: &str, model_supported: bool) -> (r: Result<Avr, AvrError>)
        ensures
            r is Ok <==> model_supported,
            r matches Ok(avr) ==> avr.spec_fresh(mcu_name@),
            r matches Err(e) ==> e == AvrError::UnknownModel,
    {
        if !model_supported {
            return Err(AvrError::UnknownModel);
        }
        Ok(
            Avr {
                current_state: State::initial(),
                status: Status::default(),
                mcu_name: String::from_str(mcu_name),
                frequency: 16_000_000,
                program: Vec::new(),
                terminated: false,
            },
        )
    }

    /// Resets the microcontroller.  The installed reset callback fires
    /// synchronously within this call and updates the status record.
    pub fn reset(&mut self)
        requires
            !old(self).terminated,
            old(self).status.powered_on ==> old(self).status.reset_count < u64::MAX,
        ensures
            *final(self) == old(self).spec_reset(),
    {
        self.status.on_reset();
    }

    /// Terminates the microcontroller.  Afterwards the handle must not be
    /// driven any further.
    pub fn terminate(&mut self)
        ensures
            *final(self) == old(self).spec_terminate(),
    {
        self.terminated = true;
    }

    /// Advances the engine by one scheduling unit.  `code` is the state
    /// code the engine returned for the cycle; the mapped run-state is
    /// cached and returned.  A code outside the eight documented ones is an
    /// engine contract violation and must be treated as fatal by the
    /// caller at that boundary.
    pub fn run_cycle(&mut self, code: i32) -> (s: State)
        requires
            !old(self).terminated,
            0 <= code <= 7,
        ensures
            *final(self) == old(self).spec_run(code as int),
            s == State::spec_of_code(code as int),
    {
        self.current_state = State::from_code(code);
        self.current_state
    }

    /// Flashes something to the microcontroller: delegates to the
    /// loadable's own flashing capability, with this handle as the target.
    pub fn flash<F: Flashable>(&mut self, flashable: &F)
        requires
            !old(self).terminated,
        ensures
            flash_step(*old(self), *final(self), flashable.payload()),
    {
        flashable.flash(self)
    }

    /// Gets the status of the microcontroller.
    pub fn status(&self) -> (s: &Status)
        ensures
            *s == self.status,
    {
        &self.status
    }

    /// Gets the cached run-state of the microcontroller.
    pub fn state(&self) -> (s: &State)
        ensures
            *s == self.current_state,
    {
        &self.current_state
    }

    /// Whether the simulation can make no more forward progress: its last
    /// observed run-state is one of the terminal ones.
    pub fn indefinitely_halted(&self) -> (r: bool)
        ensures
            r == !self.current_state.spec_is_running(),
    {
        !self.current_state.is_running()
    }

    /// Gets the name of the microcontroller model.
    pub fn name(&self) -> (r: &str)
        ensures
            r@ == self.mcu_name@,
    {
        self.mcu_name.as_str()
    }

    /// Gets the clock frequency of the microcontroller.
    pub fn frequency(&self) -> (f: u32)
        ensures
            f == self.frequency,
    {
        self.frequency
    }

    /// Sets the clock frequency of the microcontroller.
    pub fn set_frequency(&mut self, freq: u32)
        ensures
            *final(self) == (Avr { frequency: freq, ..*old(self) }),
    {
        self.frequency = freq;
    }
}

/// The handle after a whole run of cycles, one engine state code per cycle.
pub open spec fn run_all(avr: Avr, codes: Seq<int>) -> Avr
    decreases codes.len(),
{
    if codes.len() == 0 {
        avr
    } else {
        run_all(avr.spec_run(codes[0]), codes.skip(1))
    }
}

/// Running any number of cycles never touches the status record: the
/// reset count stays at zero until an explicit reset, no matter how many
/// cycles have run.  Nothing but the cached run-state moves at all: the
/// program memory, the name, the frequency and the termination flag stay.
pub proof fn lemma_cycles_preserve_status(avr: Avr, codes: Seq<int>)
    ensures
        run_all(avr, codes).status == avr.status,
        run_all(avr, codes).program == avr.program,
        run_all(avr, codes).mcu_name == avr.mcu_name,
        run_all(avr, codes).frequency == avr.frequency,
        run_all(avr, codes).terminated == avr.terminated,
    decreases codes.len(),
{
    if codes.len() > 0 {
        lemma_cycles_preserve_status(avr.spec_run(codes[0]), codes.skip(1));
    }
}

/// The handle after a number of explicit resets.
pub open spec fn reset_n(avr: Avr, n: nat) -> Avr
    decreases n,
{
    if n == 0 {
        avr
    } else {
        reset_n(avr.spec_reset(), (n - 1) as nat)
    }
}

/// Reset counting: on a powered-on handle, the n-th explicit reset brings
/// the reset count to exactly n more than before, and from the first one on
/// the handle reports that it has been reset.  On a fresh handle the count
/// after n resets is therefore exactly n.
pub proof fn lemma_reset_counting(avr: Avr, n: nat)
    requires
        avr.status.powered_on,
        avr.status.reset_count + n <= u64::MAX,
    ensures
        reset_n(avr, n).status.powered_on,
        reset_n(avr, n).status.reset_count == avr.status.reset_count + n,
        n >= 1 ==> reset_n(avr, n).status.spec_has_reset(),
        reset_n(avr, n).current_state == avr.current_state,
        reset_n(avr, n).program == avr.program,
    decreases n,
{
    if n > 0 {
        lemma_reset_counting(avr.spec_reset(), (n - 1) as nat);
    }
}

} // verus!
