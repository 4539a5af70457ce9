//! The French Republican calendar: converting a Gregorian date to its
//! Republican year and day, and writing the result out in words.
//!
//! A [`GregorianDate`] converts into a [`RepublicanDate`], and
//! [`RepublicanDate::format`] gives its text, such as
//! "décadi 20 Messidor, Year CCXXXI". The Republican year begins on
//! 22 September of the Gregorian calendar; the true calendar followed the
//! autumn equinox, which in some years falls a day or two later.
//!
//! The module [`post`] words the daily post that announces the date.

pub mod decimal;
mod elapsed;
pub mod gregorian;
pub mod names;
pub mod post;
pub mod republican;
pub mod roman;

pub use gregorian::GregorianDate;
pub use republican::RepublicanDate;
