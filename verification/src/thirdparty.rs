pub mod wiz;
