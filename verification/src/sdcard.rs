//! Driver for an SD card on a serial peripheral bus: command formatting
//! and the initialization state machine, for other kernel capsules to build
//! on.
//!
//! The driver decides; the bus transfers. Each step here fills the transmit
//! buffer and hands back the duplex transfer to perform — the bus
//! configuration, the buffers and the length — and the bus's completion
//! callback feeds the result back into [`SDCard::read_write_done`] for the
//! next step.

use vstd::prelude::*;

verus! {

/// Commands the driver issues during initialization. An
/// application-specific command must be announced by a preceding `Cmd55`.
#[derive(Clone, Copy, PartialEq, Eq, Structural, Debug)]
pub enum SDCmd {
    Cmd0,
    Cmd8,
    Cmd55,
    ACmd41,
}

/// The wire number of `cmd`: application-specific commands carry `0x80` on
/// top of their number.
pub open spec fn cmd_number(cmd: SDCmd) -> u8 {
    match cmd {
        SDCmd::Cmd0 => 0,
        SDCmd::Cmd8 => 8,
        SDCmd::Cmd55 => 55,
        SDCmd::ACmd41 => 0xA9,
    }
}

/// Response forms an SD card sends back, each with its fixed length.
#[derive(Clone, Copy, PartialEq, Eq, Structural, Debug)]
pub enum SDResponse {
    R1,
    R2,
    R3,
    R7,
}

/// How many bytes the card sends for this response form.
pub open spec fn response_len(response: SDResponse) -> int {
    match response {
        SDResponse::R1 => 1,
        SDResponse::R2 => 2,
        SDResponse::R3 => 5,
        SDResponse::R7 => 5,
    }
}

/// States of the initialization state machine, one transfer per step.
#[derive(Clone, Copy, PartialEq, Eq, Structural, Debug)]
pub enum SDState {
    Idle,
    SendACmd { acmd: SDCmd, arg: u32, response: SDResponse },
    InitDelayClocks,
    InitReset,
    InitCheckVersion,
    InitAppSpecificInitRepeat,
    InitAppSpecificInit,
    InitGenericInitRepeat,
    InitSetBlocksize,
}

/// A serial-bus clock configuration: polarity, phase and frequency.
#[derive(Clone, Copy, PartialEq, Eq, Structural, Debug)]
pub struct SpiConfig {
    pub polarity_idle_low: bool,
    pub phase_sample_leading: bool,
    pub rate: u32,
}

/// The bus configuration the driver asks for: clock idle low, sampling on
/// the leading edge, at 400 kHz while the card initializes and 4 MHz after.
pub open spec fn spi_config_of(slow: bool) -> SpiConfig {
    SpiConfig {
        polarity_idle_low: true,
        phase_sample_leading: true,
        rate: if slow {
            400000
        } else {
            4000000
        },
    }
}

/// One duplex transfer for the bus to perform: the configuration to apply,
/// the buffers, and how many bytes to clock.
pub struct SpiTransfer {
    pub config: SpiConfig,
    pub write_buffer: Vec<u8>,
    pub read_buffer: Option<Vec<u8>>,
    pub len: usize,
}

/// What users of the driver implement to hear about card status, completed
/// initialization, and finished block reads and writes.
pub trait SDCardClient {
    fn status(&mut self, status: u8);

    fn init_done(&mut self, status: u8);

    fn read_done(&mut self, data: Vec<u8>, len: usize);

    fn write_done(&mut self, buffer: Vec<u8>);
}

/// The transmit buffer after formatting `cmd` with argument `arg`: the
/// command byte, the argument most-significant byte first, the fixed
/// checksum byte, and one `0xFF` filler per expected response byte; bytes
/// beyond that keep their old values.
pub open spec fn command_buffer(cmd: SDCmd, arg: u32, response: SDResponse, buf: Seq<u8>) -> Seq<
    u8,
> {
    buf.map(
        |k: int, b: u8|
            if k == 0 {
                0x40u8 | cmd_number(cmd)
            } else if k == 1 {
                ((arg >> 24u32) & 0xFF) as u8
            } else if k == 2 {
                ((arg >> 16u32) & 0xFF) as u8
            } else if k == 3 {
                ((arg >> 8u32) & 0xFF) as u8
            } else if k == 4 {
                (arg & 0xFF) as u8
            } else if k == 5 {
                if cmd is Cmd8 {
                    0x87u8
                } else {
                    0x95u8
                }
            } else if k < 6 + response_len(response) {
                0xFFu8
            } else {
                b
            },
    )
}

/// SD card driver state: the state machine position, the bus speed, the
/// owned transfer buffers while no transfer is in flight, and the client to
/// notify.
pub struct SDCard<C> {
    pub state: SDState,
    pub after_state: SDState,
    pub is_slow_mode: bool,
    pub txbuffer: Option<Vec<u8>>,
    pub rxbuffer: Option<Vec<u8>>,
    pub client: Option<C>,
}

impl<C: SDCardClient> SDCard<C> {
    /// A driver holding its two transfer buffers, idle and in slow mode.
    pub fn new(txbuffer: Vec<u8>, rxbuffer: Vec<u8>) -> (r: SDCard<C>)
        ensures
            r.state == SDState::Idle,
            r.after_state == SDState::Idle,
            r.is_slow_mode == true,
            r.txbuffer == Some(txbuffer),
            r.rxbuffer == Some(rxbuffer),
            r.client is None,
    {
        SDCard {
            state: SDState::Idle,
            after_state: SDState::Idle,
            is_slow_mode: true,
            txbuffer: Some(txbuffer),
            rxbuffer: Some(rxbuffer),
            client: None,
        }
    }

    /// Registers the client to notify on completions.
    pub fn set_client(&mut self, client: C)
        ensures
            final(self).client == Some(client),
            final(self).state == old(self).state,
            final(self).after_state == old(self).after_state,
            final(self).is_slow_mode == old(self).is_slow_mode,
            final(self).txbuffer == old(self).txbuffer,
            final(self).rxbuffer == old(self).rxbuffer,
    {
        self.client = Some(client);
    }

    /// Whether a card is present in the slot.
    pub fn is_installed(&self) -> (r: bool)
        ensures
            r == true,
    {
        true
    }

    /// The initialization-speed bus configuration: 400 kHz.
    pub fn set_spi_slow_mode(&self) -> (r: SpiConfig)
        ensures
            r == spi_config_of(true),
    {
        SpiConfig { polarity_idle_low: true, phase_sample_leading: true, rate: 400000 }
    }

    /// The full-speed bus configuration: 4 MHz.
    pub fn set_spi_fast_mode(&self) -> (r: SpiConfig)
        ensures
            r == spi_config_of(false),
    {
        SpiConfig { polarity_idle_low: true, phase_sample_leading: true, rate: 4000000 }
    }

    /// Formats `cmd` with `arg` into `write_buffer` and returns the duplex
    /// transfer to perform: the current-speed bus configuration, the
    /// formatted buffer, the response buffer handed through, and six
    /// command bytes plus one per expected response byte to clock.
    pub fn send_command(
        &self,
        cmd: SDCmd,
        arg: u32,
        response: SDResponse,
        write_buffer: Vec<u8>,
        read_buffer: Option<Vec<u8>>,
    ) -> (r: SpiTransfer)
        requires
            write_buffer@.len() >= 6 + response_len(response),
        ensures
            r.config == spi_config_of(self.is_slow_mode),
            r.write_buffer@ == command_buffer(cmd, arg, response, write_buffer@),
            r.read_buffer == read_buffer,
            r.len == 6 + response_len(response),
    {
        let config = if self.is_slow_mode {
            self.set_spi_slow_mode()
        } else {
            self.set_spi_fast_mode()
        };

        let mut buf = write_buffer;
        let code: u8 = match cmd {
            SDCmd::Cmd0 => 0,
            SDCmd::Cmd8 => 8,
            SDCmd::Cmd55 => 55,
            SDCmd::ACmd41 => 0xA9,
        };
        buf.set(0, 0x40 | code);

        // Argument, most-significant byte first.
        buf.set(1, ((arg >> 24) & 0xFF) as u8);
        buf.set(2, ((arg >> 16) & 0xFF) as u8);
        buf.set(3, ((arg >> 8) & 0xFF) as u8);
        buf.set(4, (arg & 0xFF) as u8);

        // The checksum matters only for the two reset-time commands, each
        // of which has a fixed argument and so a fixed checksum.
        if let SDCmd::Cmd8 = cmd {
            buf.set(5, 0x87);
        } else {
            buf.set(5, 0x95);
        }

        // One filler byte per expected response byte.
        let recv_len: usize = match response {
            SDResponse::R1 => 1,
            SDResponse::R2 => 2,
            SDResponse::R3 => 5,
            SDResponse::R7 => 5,
        };
        let mut i: usize = 0;
        while i < recv_len
            invariant
                i <= recv_len,
                recv_len == response_len(response),
                buf@.len() == write_buffer@.len() >= 6 + recv_len,
                forall|k: int| 0 <= k < 6 + i ==> buf@[k] == command_buffer(
                    cmd,
                    arg,
                    response,
                    write_buffer@,
                )[k],
                forall|k: int| 6 + i <= k < buf@.len() ==> buf@[k] == write_buffer@[k],
            decreases recv_len - i,
        {
            buf.set(6 + i, 0xFF);
            i += 1;
        }
        proof {
            assert(buf@ =~= command_buffer(cmd, arg, response, write_buffer@));
        }
        SpiTransfer { config, write_buffer: buf, read_buffer, len: 6 + recv_len }
    }

    /// Begins card initialization: configures the bus slow, and — when the
    /// driver holds both its buffers — clocks ten `0xFF` bytes with the
    /// card selected so its internal state can settle, moving to the
    /// delay-clocks state. Without both buffers nothing is begun.
    pub fn initialize(&mut self) -> (r: Option<SpiTransfer>)
        requires
            old(self).txbuffer matches Some(tx) ==> tx@.len() >= 10,
        ensures
            final(self).is_slow_mode == true,
            final(self).after_state == old(self).after_state,
            final(self).client == old(self).client,
            final(self).txbuffer is None,
            ({
                let m = *old(self);
                if m.txbuffer is Some && m.rxbuffer is Some {
                    let tx = m.txbuffer->0;
                    &&& final(self).state == SDState::InitDelayClocks
                    &&& final(self).rxbuffer is None
                    &&& r matches Some(t) && t.config == spi_config_of(true) && t.len == 10
                        && t.read_buffer == m.rxbuffer && t.write_buffer@.len() == tx@.len()
                        && (forall|k: int| 0 <= k < 10 ==> t.write_buffer@[k] == 0xFF)
                        && (forall|k: int|
                        10 <= k < tx@.len() ==> t.write_buffer@[k] == tx@[k])
                } else {
                    &&& r is None
                    &&& final(self).state == old(self).state
                    &&& final(self).rxbuffer == old(self).rxbuffer
                }
            }),
    {
        self.is_slow_mode = true;
        let tx = self.txbuffer.take();
        match tx {
            None => None,
            Some(mut txbuffer) => {
                let rx = self.rxbuffer.take();
                match rx {
                    None => None,
                    Some(rxbuffer) => {
                        self.state = SDState::InitDelayClocks;
                        let ghost tx0 = txbuffer@;
                        let mut i: usize = 0;
                        while i < 10
                            invariant
                                i <= 10,
                                txbuffer@.len() == tx0.len() >= 10,
                                forall|k: int| 0 <= k < i ==> txbuffer@[k] == 0xFF,
                                forall|k: int| i <= k < tx0.len() ==> txbuffer@[k] == tx0[k],
                            decreases 10 - i,
                        {
                            txbuffer.set(i, 0xFF);
                            i += 1;
                        }
                        Some(
                            SpiTransfer {
                                config: self.set_spi_slow_mode(),
                                write_buffer: txbuffer,
                                read_buffer: Some(rxbuffer),
                                len: 10,
                            },
                        )
                    },
                }
            },
        }
    }

    /// Block reads are not begun until initialization completes.
    pub fn read_block(&self) {
    }

    /// Block writes are not begun until initialization completes.
    pub fn write_block(&self) {
    }

    /// The bus's completion callback: one step of the initialization state
    /// machine. Each step formats the next command into the returned
    /// buffers and hands back the transfer to perform; states whose
    /// handling awaits the card's responses consume the buffers and stop.
    pub fn read_write_done(
        &mut self,
        write_buffer: Vec<u8>,
        read_buffer: Option<Vec<u8>>,
        len: usize,
    ) -> (r: Option<SpiTransfer>)
        requires
            write_buffer@.len() >= 11,
        ensures
            final(self).is_slow_mode == old(self).is_slow_mode,
            final(self).txbuffer == old(self).txbuffer,
            final(self).rxbuffer == old(self).rxbuffer,
            final(self).client == old(self).client,
            ({
                let m = *old(self);
                match m.state {
                    SDState::SendACmd { acmd, arg, response } => {
                        &&& final(self).state == m.after_state
                        &&& final(self).after_state == m.after_state
                        &&& r matches Some(t) && t.write_buffer@ == command_buffer(
                            acmd,
                            arg,
                            response,
                            write_buffer@,
                        ) && t.len == 6 + response_len(response) && t.read_buffer == read_buffer
                            && t.config == spi_config_of(m.is_slow_mode)
                    },
                    SDState::InitDelayClocks => {
                        &&& final(self).state == SDState::InitReset
                        &&& final(self).after_state == m.after_state
                        &&& r matches Some(t) && t.write_buffer@ == command_buffer(
                            SDCmd::Cmd0,
                            0,
                            SDResponse::R1,
                            write_buffer@,
                        ) && t.len == 7 && t.read_buffer == read_buffer && t.config
                            == spi_config_of(m.is_slow_mode)
                    },
                    SDState::InitReset => {
                        &&& final(self).state == SDState::InitCheckVersion
                        &&& final(self).after_state == m.after_state
                        &&& r matches Some(t) && t.write_buffer@ == command_buffer(
                            SDCmd::Cmd8,
                            0x1AA,
                            SDResponse::R7,
                            write_buffer@,
                        ) && t.len == 11 && t.read_buffer == read_buffer && t.config
                            == spi_config_of(m.is_slow_mode)
                    },
                    SDState::InitCheckVersion => {
                        &&& final(self).state == (SDState::SendACmd {
                            acmd: SDCmd::ACmd41,
                            arg: 0,
                            response: SDResponse::R1,
                        })
                        &&& final(self).after_state == SDState::InitAppSpecificInitRepeat
                        &&& r matches Some(t) && t.write_buffer@ == command_buffer(
                            SDCmd::Cmd55,
                            0,
                            SDResponse::R1,
                            write_buffer@,
                        ) && t.len == 7 && t.read_buffer == read_buffer && t.config
                            == spi_config_of(m.is_slow_mode)
                    },
                    _ => {
                        &&& r is None
                        &&& final(self).state == m.state
                        &&& final(self).after_state == m.after_state
                    },
                }
            }),
    {
        match self.state {
            SDState::SendACmd { acmd, arg, response } => {
                // Send the announced application-specific command and
                // resume the state machine where it left off.
                self.state = self.after_state;
                Some(self.send_command(acmd, arg, response, write_buffer, read_buffer))
            },
            SDState::InitDelayClocks => {
                // Next reset the card to its idle state.
                self.state = SDState::InitReset;
                Some(self.send_command(SDCmd::Cmd0, 0x0, SDResponse::R1, write_buffer, read_buffer))
            },
            SDState::InitReset => {
                // Next check the voltage range, valid only on version-2
                // cards: it tells the card versions apart.
                self.state = SDState::InitCheckVersion;
                Some(
                    self.send_command(
                        SDCmd::Cmd8,
                        0x1AA,
                        SDResponse::R7,
                        write_buffer,
                        read_buffer,
                    ),
                )
            },
            SDState::InitCheckVersion => {
                // Announce and send the application-specific initialize.
                self.state = SDState::SendACmd {
                    acmd: SDCmd::ACmd41,
                    arg: 0x0,
                    response: SDResponse::R1,
                };
                self.after_state = SDState::InitAppSpecificInitRepeat;
                Some(
                    self.send_command(SDCmd::Cmd55, 0x0, SDResponse::R1, write_buffer, read_buffer),
                )
            },
            _ => None,
        }
    }
}

/// Application driver layered on top of the SD card capsule.
pub struct SDCardDriver<'a, C> {
    pub sdcard: &'a SDCard<C>,
}

} // verus!
