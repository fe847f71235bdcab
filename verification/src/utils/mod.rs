pub mod validators;
