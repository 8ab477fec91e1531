//! Verified rules of the Glee Club's member site.
//!
//! - [`event`], [`attendance`] and [`grades`]: events and their gigs,
//!   who is expected at them, and how attendance turns into grades;
//! - [`member`], [`semester`], [`auth`], [`roles`] and [`session`]: members, the
//!   semesters they are active in, what they may do, logins and password
//!   resets;
//! - [`song`], [`carpool`], [`money`], [`uniform`] and [`misc`]: the
//!   repertoire, rides to events, fees, uniforms, minutes and the rest;
//! - [`email`]: the subjects and the schedule of the emails the site sends;
//! - [`admin`]: the requests the webmaster's tools answer;
//! - [`datetime`] and [`text`]: calendar arithmetic and string helpers.

pub mod admin;
pub mod attendance;
pub mod auth;
pub mod carpool;
pub mod datetime;
pub mod email;
pub mod error;
pub mod event;
pub mod grades;
pub mod member;
pub mod misc;
pub mod money;
pub mod roles;
pub mod semester;
pub mod session;
pub mod song;
pub mod text;
pub mod uniform;
