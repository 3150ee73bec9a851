//! The matrix groups of rigid-body kinematics, built on the composition
//! engine: rotations (`So3Matrix`), rigid transforms (`Se3Matrix`) and
//! spatial velocities (`Twist`), with the conversions between them.

pub mod se3;
pub mod shared_traits;
pub mod so3;
pub mod twist;

pub use se3::{Se3Matrix, ToSe3};
pub use shared_traits::ToVec;
pub use so3::{So3Matrix, ToSo3};
pub use twist::{ToTwist, Twist};
