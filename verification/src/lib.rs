//! Frame-forwarding engine of a software Ethernet bridge that extends a
//! local link-layer segment over a publish/subscribe backhaul.
//!
//! Frames captured on the local virtual interface travel through a
//! loop-suppression filter and a lossless text codec to the broker, and
//! delivered payloads travel the same way back to the interface. The codec,
//! the filter, the queues between the pumps, and the per-frame decisions of
//! each pump loop live here, with their behaviour stated in contracts; the
//! blocking I/O around them — the interface itself and the broker session —
//! stays with the unverified callers.

mod backhaul;
mod codec;
mod fabric;
mod filter;
mod frame;
mod pump;

pub use backhaul::BackhaulClient;
pub use backhaul::BackhaulClientBuilder;
pub use backhaul::BackhaulConfig;
pub use codec::MalformedPayloadError;
pub use codec::decode;
pub use codec::encode;
pub use codec::spec_decode;
pub use codec::transport_bytes_of;
pub use codec::transport_text_of;
pub use fabric::FrameQueue;
pub use fabric::lemma_fifo_preservation;
pub use fabric::queue_frames;
pub use filter::Direction;
pub use filter::lemma_destination_self_suppression;
pub use filter::lemma_source_self_suppression;
pub use filter::should_forward;
pub use filter::spec_should_forward;
pub use frame::Frame;
pub use frame::NodeIdentity;
pub use frame::UndersizedFrameError;
pub use frame::dest_field;
pub use frame::source_field;
pub use frame::FRAME_MIN_LEN;
pub use frame::MAC_LEN;
pub use pump::ForwardDecision;
pub use pump::accept_captured;
pub use pump::accept_delivery;
pub use pump::next_injection;
pub use pump::next_publish_payload;
