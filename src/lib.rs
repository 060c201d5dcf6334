//! Compositing of decoded image blocks into a framebuffer: RGB565 to RGB888
//! conversion, bounds-checked block placement, per-pass decode accounting, a
//! step gate that reveals one block per frame, and the display loop's
//! decisions.

pub mod color;
pub mod compositor;
pub mod display;
pub mod session;
pub mod step_gate;
