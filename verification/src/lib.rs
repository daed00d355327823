//! Driver core for Colorlight 5A-75 family LED receiver cards.
//!
//! The cards speak a raw-Ethernet control protocol: frames are told apart by
//! custom EtherType values, not by any IP layer.  This crate holds the
//! protocol codec (the exact byte layout of every frame that is sent, and the
//! parser for the one frame that is received) and the detection handshake
//! state machine, with machine-checked contracts.  The raw socket itself is
//! plain I/O and lives outside this crate.

pub mod codec;
pub mod session;

pub use codec::build_detect_receiver_req;
pub use codec::build_detect_receiver_ack;
pub use codec::parse_detect_receiver_response;
pub use codec::build_display_frame;
pub use codec::build_pixel_row_frame;
pub use codec::ReceiverCardInfo;
pub use codec::DST_MAC;
pub use codec::SRC_MAC;
pub use session::DetectionSession;
pub use session::DetectOutcome;
pub use session::MAX_ATTEMPTS;
