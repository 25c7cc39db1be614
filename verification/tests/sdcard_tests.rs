use proc_core::sdcard::SDCard;
use proc_core::sdcard::SDCardClient;
use proc_core::sdcard::SDCmd;
use proc_core::sdcard::SDResponse;
use proc_core::sdcard::SDState;

struct NullClient;

impl SDCardClient for NullClient {
    fn status(&mut self, _status: u8) {}

    fn init_done(&mut self, _status: u8) {}

    fn read_done(&mut self, _data: Vec<u8>, _len: usize) {}

    fn write_done(&mut self, _buffer: Vec<u8>) {}
}

fn fresh_card() -> SDCard<NullClient> {
    SDCard::new(vec![0u8; 16], vec![0u8; 16])
}

#[test]
fn new_card_is_idle_and_slow() {
    let card = fresh_card();
    assert_eq!(card.state, SDState::Idle);
    assert_eq!(card.after_state, SDState::Idle);
    assert!(card.is_slow_mode);
    assert!(card.txbuffer.is_some());
    assert!(card.rxbuffer.is_some());
    assert!(card.client.is_none());
    assert!(card.is_installed());
}

#[test]
fn set_client_registers_the_client() {
    let mut card = fresh_card();
    card.set_client(NullClient);
    assert!(card.client.is_some());
}

#[test]
fn spi_modes_configure_polarity_phase_and_rate() {
    let card = fresh_card();
    let slow = card.set_spi_slow_mode();
    assert!(slow.polarity_idle_low);
    assert!(slow.phase_sample_leading);
    assert_eq!(slow.rate, 400000);
    let fast = card.set_spi_fast_mode();
    assert_eq!(fast.rate, 4000000);
}

#[test]
fn initialize_clocks_ten_filler_bytes() {
    let mut card = fresh_card();
    let transfer = card.initialize().expect("both buffers are held");
    assert_eq!(card.state, SDState::InitDelayClocks);
    assert_eq!(transfer.len, 10);
    assert_eq!(transfer.config.rate, 400000);
    assert!(transfer.write_buffer[..10].iter().all(|b| *b == 0xFF));
    assert!(transfer.read_buffer.is_some());
    // The buffers are on the bus now; starting again does nothing.
    assert!(card.initialize().is_none());
}

#[test]
fn send_command_formats_the_wire_bytes() {
    let card = fresh_card();
    let t = card.send_command(
        SDCmd::Cmd8,
        0x1AA,
        SDResponse::R7,
        vec![0u8; 16],
        Some(vec![0u8; 16]),
    );
    // Command byte 0x40 | 8, the argument most-significant byte first, the
    // fixed CMD8 checksum, then five filler bytes for the R7 response.
    assert_eq!(t.write_buffer[0], 0x48);
    assert_eq!(&t.write_buffer[1..5], &[0x00, 0x00, 0x01, 0xAA]);
    assert_eq!(t.write_buffer[5], 0x87);
    assert!(t.write_buffer[6..11].iter().all(|b| *b == 0xFF));
    assert_eq!(t.len, 11);
    assert_eq!(t.write_buffer[11..], [0u8; 5]);
}

#[test]
fn send_command_uses_reset_checksum_for_other_commands() {
    let card = fresh_card();
    let t = card.send_command(SDCmd::Cmd0, 0, SDResponse::R1, vec![0u8; 16], None);
    assert_eq!(t.write_buffer[0], 0x40);
    assert_eq!(t.write_buffer[5], 0x95);
    assert_eq!(t.len, 7);
    assert!(t.read_buffer.is_none());
}

#[test]
fn initialization_walks_reset_then_version_check() {
    let mut card = fresh_card();
    let first = card.initialize().unwrap();

    // Delay clocks done: reset the card to idle with CMD0.
    let t = card
        .read_write_done(first.write_buffer, first.read_buffer, first.len)
        .unwrap();
    assert_eq!(card.state, SDState::InitReset);
    assert_eq!(t.write_buffer[0], 0x40);
    assert_eq!(t.len, 7);

    // Reset done: check the voltage range with CMD8 to tell versions apart.
    let t = card.read_write_done(t.write_buffer, t.read_buffer, t.len).unwrap();
    assert_eq!(card.state, SDState::InitCheckVersion);
    assert_eq!(t.write_buffer[0], 0x48);
    assert_eq!(t.len, 11);

    // Version known: announce the application-specific initialize.
    let t = card.read_write_done(t.write_buffer, t.read_buffer, t.len).unwrap();
    assert_eq!(
        card.state,
        SDState::SendACmd { acmd: SDCmd::ACmd41, arg: 0, response: SDResponse::R1 }
    );
    assert_eq!(card.after_state, SDState::InitAppSpecificInitRepeat);
    assert_eq!(t.write_buffer[0], 0x40 | 55);
    assert_eq!(t.len, 7);

    // The announced command goes out and the machine resumes.
    let t = card.read_write_done(t.write_buffer, t.read_buffer, t.len).unwrap();
    assert_eq!(card.state, SDState::InitAppSpecificInitRepeat);
    assert_eq!(t.write_buffer[0], 0x40 | 0xA9);

    // The remaining states await the card's responses and stop here.
    assert!(card.read_write_done(t.write_buffer, t.read_buffer, t.len).is_none());
}

#[test]
fn idle_card_ignores_completions() {
    let mut card = fresh_card();
    assert!(card.read_write_done(vec![0u8; 16], None, 0).is_none());
    assert_eq!(card.state, SDState::Idle);
}

#[test]
fn read_and_write_block_wait_for_initialization() {
    let card = fresh_card();
    card.read_block();
    card.write_block();
    assert_eq!(card.state, SDState::Idle);
}
