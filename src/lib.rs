pub mod model;
pub mod text;
pub mod convert;
pub mod codec;
pub mod storage;
pub mod scan;
pub mod template;
pub mod resolver;
