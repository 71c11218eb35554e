//! Verified logic of the Lumentra USB MIDI controller: four buttons that play notes, a
//! distance sensor that moves a controller value, a small colour display and a buzzer.
//!
//! The library performs no input or output. [`controller::Controller`] says what the board
//! is to do next and takes in how that went; the other modules hold the parts that it is
//! made of:
//!
//! * [`midi`], [`button`], [`controls`]: messages, buttons, and what is remembered of both;
//! * [`lcd`], [`dashboard`]: the display's bus traffic, and what is drawn with it;
//! * [`buzzer`]: tones;
//! * [`usb`]: how the device presents itself, and what a failed transfer means.
//!
//! Six modules hold no code to run, only what is proved of the others: [`panel`] and
//! [`picture`] (what the bus traffic paints), [`answers`] and [`run`] (what the controller
//! does, step by step and in whole runs), [`screen`] and [`host`] (that display and host
//! stay in step with the controls).
pub mod answers;
pub mod button;
pub mod buzzer;
pub mod controller;
pub mod controls;
pub mod dashboard;
pub mod host;
pub mod lcd;
pub mod midi;
pub mod panel;
pub mod picture;
pub mod run;
pub mod screen;
pub mod usb;
