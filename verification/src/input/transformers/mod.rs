pub mod capitalize;
pub mod normalize_nfkc;
pub mod remove_whitespace;
pub mod strip_prefix;
pub mod strip_suffix;
pub mod titlecase;
pub mod trim;
pub mod trim_end;
pub mod trim_start;
pub mod truncate;
pub mod collapse_whitespace;
pub mod replace;
pub mod custom;
pub mod nested;
pub mod abs;
pub mod clamp;
pub mod dedup;
pub mod lowercase;
pub mod uppercase;
pub mod normalize_nfc;
