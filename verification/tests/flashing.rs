use simavr_sim::Avr;
use simavr_sim::Firmware;
use simavr_sim::State;

// The state code a healthy engine reports once firmware is running freely.
const RUNNING_CODE: i32 = 2;

fn atmega328() -> Avr {
    Avr::new("atmega328", true).unwrap()
}

#[test]
fn can_flash_raw_machine_code() {
    let opcode: Vec<u8> = vec![0b1001_0101, 0b1000_1000];
    let mut avr = atmega328();
    avr.flash(&opcode);
    assert_eq!(avr.run_cycle(RUNNING_CODE), State::Running);
}

#[test]
fn can_flash_elf_file() {
    // The program bytes as the external image reader hands them over once
    // it has parsed a well-formed image.
    let firmware = Firmware::new(vec![0x0c, 0x94, 0x34, 0x00, 0x0c, 0x94, 0x3e, 0x00]);
    let mut avr = atmega328();
    avr.flash(&firmware);
}

#[test]
fn raw_bytes_land_at_address_zero() {
    let mut avr = atmega328();
    avr.flash(&vec![1u8, 2, 3, 4]);
    assert_eq!(avr.program, vec![1u8, 2, 3, 4]);
}

#[test]
fn firmware_flash_writes_its_program_bytes() {
    let firmware = Firmware::new(vec![7u8, 8, 9]);
    let mut avr = atmega328();
    avr.flash(&firmware);
    assert_eq!(avr.program, vec![7u8, 8, 9]);
    assert_eq!(firmware.data(), &vec![7u8, 8, 9]);
}

#[test]
fn flash_is_last_write_wins() {
    let mut avr = atmega328();
    avr.flash(&vec![1u8, 2, 3]);
    avr.flash(&vec![9u8, 8]);
    // The later flash wins where the two overlap; the byte it does not
    // cover keeps what the earlier flash left there.  Nothing is merged.
    assert_eq!(avr.program, vec![9u8, 8, 3]);
}

#[test]
fn flashing_does_not_touch_the_rest_of_the_handle() {
    let mut avr = atmega328();
    avr.reset();
    avr.flash(&vec![5u8, 6]);
    assert_eq!(avr.status().reset_count, 1);
    assert_eq!(avr.state(), &State::Limbo);
    assert_eq!(avr.frequency(), 16_000_000);
    assert_eq!(avr.name(), "atmega328");
}

#[test]
fn one_firmware_may_flash_many_handles() {
    let firmware = Firmware::new(vec![1u8, 2]);
    let mut first = atmega328();
    let mut second = atmega328();
    first.flash(&firmware);
    second.flash(&firmware);
    assert_eq!(first.program, second.program);
}
