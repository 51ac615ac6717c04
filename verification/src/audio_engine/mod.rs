pub mod http_source;
pub mod volume;
pub mod fade;
pub mod engine;
pub mod output;
pub mod channels;
pub mod resampler;
pub mod fft;
pub mod decoder;
pub mod dsp;
