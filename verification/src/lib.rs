//! YM music file model, parser and register-change player.
//!
//! A YM file holds one 16-byte frame of AY-3-8910 / YM2149 register state per video frame,
//! with extra bits that control four special effects. This library decodes such files and
//! turns each frame into the ordered list of register writes that a sound chip, or an
//! emulator of it, has to receive during that frame.
//!
//! The following YM-file types are supported: `YM2!`, `YM3!`, `YM3B`, `YM4!`, `YM5!` and
//! `YM6!`, plain or in an LHA archive. All special effects are being recognized.
//!
//! Time inside a frame is counted in exact integer units, see
//! [`ym::effects::FRAME_SPAN`]: no rounding takes place anywhere in the player.
pub mod ym;

pub use crate::ym::archive::{parse_any_tagged, parse_packed_tagged};
pub use crate::ym::effects;
pub use crate::ym::flags;
pub use crate::ym::parse::{parse_ym, EndTag, ParseError};
pub use crate::ym::song::YmSong;
pub use crate::ym::{YmFrame, YmVersion, MAX_DD_SAMPLES, MFP_TIMER_FREQUENCY};
