pub mod assemblyai;
pub mod credentials;
pub mod deepgram;
pub mod groq;
pub mod summary;
