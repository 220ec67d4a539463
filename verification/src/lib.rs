//! Verified core logic of a small microcontroller firmware suite.
//!
//! The centrepiece is the debounced interrupt-to-task signalling core: an
//! [`latch::EdgeLatch`] carries a hardware edge event from an interrupt
//! handler to a cooperative consumer, and a [`debounce::DebounceGate`]
//! decides whether a drained event is a new physical action or switch
//! bounce. [`consumer::poll_step`] ties the two together with the shared
//! output state they guard.
//!
//! Around that core live the pure computations of the surrounding firmware
//! examples: WAV header parsing, DMA buffer filling, ADC value conversion,
//! clock-of-day bookkeeping, and the decision tables of the Wi-Fi
//! connection and fetch loops. Everything that touches hardware, the
//! network or an executor stays outside; this crate only computes.

pub mod adc;

pub mod audio;

pub mod clock;

pub mod consumer;

pub mod debounce;

pub mod halt;

pub mod hstring;

pub mod html;

pub mod latch;

pub mod search;

pub mod sdtime;

pub mod timeparse;

pub mod wav;

pub mod wifi;
