//! The Message: a processing unit over immutable content.
//!
//! The Stream is immutable and the Message is not: context and history
//! accumulate as it is handled, while the content it refers to never changes.
//! Content changes only through Assignment or Transformation, and those create
//! a new generation rather than editing anything.

pub mod context;
pub mod disposition;
pub mod ids;
pub mod message;
pub mod shape;
pub mod stream;
pub mod text;
pub mod treatment;

pub use context::{ContextValue, MessageContext};
pub use disposition::{
    admission, Action, Admission, Alignment, Arrival, Disposition, Identity, MessageAuthorization,
    OnMisalignment,
};
pub use ids::{MessageId, SectionId, StreamId};
pub use message::{Message, MessageCreationSource, MessageSection};
pub use shape::{choose_shape, media_type_of, Part, Shape, ShapeError, Shaped};
pub use stream::Stream;
pub use treatment::{ExecutionProfile, MessageDurability, MessagePriority, MessageTreatment};
