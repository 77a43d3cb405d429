//! The data model: lighting values, commands, cached status, lights and rooms.

pub mod color;
pub mod light;
pub mod payload;
pub mod response;
pub mod room;
pub mod scene;
pub mod settings;
pub mod status;

pub use color::{Color, Rgb};
pub use light::{Light, LightModel};
pub use payload::{LightRequest, Payload, RequestModel, Settings};
pub use response::{LightingResponse, LightingResponseType, ResponseModel};
pub use room::{Room, RoomModel};
pub use scene::{LastSet, PowerMode, SceneMode};
pub use settings::{Brightness, Kelvin, Speed, White};
pub use status::{BulbStatus, BulbStatusResult, LightStatus, Outcome, StatusModel};
