//! Model back ends: the common interface and its variants.

pub mod downloader;
pub mod mock;
pub mod onnx_runtime;
pub mod registry;
pub mod runtime;
pub mod tokenizer;
pub mod whisper_candle;
pub mod whisper_cpp;
pub mod whisper_cpp_cli;
pub mod whisper_onnx;

pub use mock::MockModel;
pub use registry::{ModelFormat, ModelMetadata, ModelRegistry, ModelSize, ModelVariant};
pub use runtime::{ModelConfig, ModelInfo, ModelRuntime, Transcription};
pub use whisper_candle::WhisperCandle;
pub use tokenizer::SimpleTokenizer;
pub use whisper_cpp_cli::WhisperCppCli;
pub use onnx_runtime::OnnxRuntime;
pub use whisper_cpp::WhisperCpp;
pub use whisper_onnx::WhisperOnnx;
