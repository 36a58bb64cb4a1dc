pub mod libgit2;
