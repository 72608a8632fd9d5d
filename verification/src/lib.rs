//! Harmonic descriptions of the basic waveforms and the decision logic of the
//! devtool's window: its event loop, its surface settings and its logo image.

pub mod harmonic;
pub mod ui;
