//! Four-wheel independent-steering ("swerve") drive: the layout of the four
//! wheel modules and the controller that holds each module's commanded
//! speed and steering angle.
//!
//! The controller is generic over its scalar type, so that its bookkeeping is
//! proved once for every numeric representation a caller chooses.
pub mod corner;
pub mod drive;
