//! The execution model of an XR session: a content-side handle, a worker
//! that owns the device, and the messages between them.

pub mod builder;
pub mod channel;
pub mod d3d;
pub mod device;
pub mod error;
pub mod events;
pub mod frame;
pub mod geometry;
pub mod headless;
pub mod input;
pub mod model;
pub mod session;
pub mod worker;

pub use builder::acknowledged;
pub use builder::serve;
pub use builder::settle;
pub use builder::start;
pub use builder::SessionBuilder;
pub use device::DeviceAPI;
pub use device::SwapChainAPI;
pub use device::SwapChainsAPI;
pub use error::Error;
pub use events::EventBuffer;
pub use frame::stamp;
pub use frame::Event;
pub use frame::Frame;
pub use frame::FrameUpdateEvent;
pub use frame::SelectEvent;
pub use frame::SelectKind;
pub use geometry::RigidTransform;
pub use geometry::Scalar;
pub use geometry::Size;
pub use geometry::View;
pub use geometry::Viewport;
pub use geometry::Views;
pub use headless::supports_session;
pub use headless::HeadlessDeviceData;
pub use headless::InputInfo;
pub use headless::MockDeviceMsg;
pub use headless::MockInputInit;
pub use headless::MockInputMsg;
pub use input::Handedness;
pub use input::InputFrame;
pub use input::InputId;
pub use input::InputSource;
pub use input::TargetRayMode;
pub use model::SwapChainId;
pub use session::EnvironmentBlendMode;
pub use session::Quitter;
pub use session::Session;
pub use session::SessionMode;
pub use session::SessionMsg;
pub use worker::CooperativeSession;
pub use worker::MainThreadSession;
pub use worker::SessionThread;
pub use worker::TIMEOUT_MS;
