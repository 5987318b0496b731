//! A tracker-module playback engine: it renders a parsed module (patterns of
//! notes and effects plus sampled instruments) into a stream of stereo audio
//! samples. All audio quantities are carried in Q16.16 fixed point, so the
//! whole engine is plain integer arithmetic and every step of it is verified.

pub mod channel;
pub mod curves;
pub mod effect_arpeggio;
pub mod effect_multi_retrig_note;
pub mod effect_portamento;
pub mod effect_toneportamento;
pub mod effect_tremor;
pub mod effect_vibrato_tremolo;
pub mod effect_volume_panning_slide;
pub mod fixed;
pub mod historical_helper;
pub mod module;
pub mod period_helper;
pub mod prelude;
pub mod state_auto_vibrato;
pub mod state_envelope;
pub mod state_instr_default;
pub mod state_sample;
pub mod triggerkeep;
pub mod xmrsplayer;

pub use crate::xmrsplayer::XmrsPlayer;
