pub mod libgit2;

pub use libgit2::Git2Backend as GitBackend;
