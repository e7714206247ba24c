pub mod fluid;
pub mod parakeet;
pub mod whisperfile;
