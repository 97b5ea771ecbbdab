//! A traffic light modelled as a cyclic state machine:
//! Green, then Yellow, then Red, then Green again. Each state carries the
//! number of seconds the light waits in it before moving on.
pub mod machine;

pub use machine::{
    Color, Green, Red, TrafficLight, TrafficLightWrapper, Yellow, GREEN_WAIT_SECS, RED_WAIT_SECS,
    YELLOW_WAIT_SECS,
};
