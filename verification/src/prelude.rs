//! One-stop imports for users of the playback engine.

pub use crate::channel::Channel;
pub use crate::historical_helper::HistoricalHelper;
pub use crate::module::{
    Envelope, EnvelopePoint, FrequencyType, InstrDefault, Instrument, InstrumentType,
    InstrVibrato, LoopType, Module, Note, PatternSlot, Sample, Waveform,
};
pub use crate::period_helper::PeriodHelper;
pub use crate::xmrsplayer::XmrsPlayer;
