//! Helpers shared by the Android back end: bringing up the native side of
//! the JNI helper classes, and the flag that the crate's test wakers set.

pub mod registration;
pub mod wake_flag;
