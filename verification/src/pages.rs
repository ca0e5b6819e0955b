pub mod bar;
pub mod base64;
pub mod foo;
pub mod hash;
pub mod number;
pub mod page;
pub mod ulid;
pub mod unixtime;
pub mod url;
pub mod uuid;
pub mod util;
