//! The reconciliation engine: the zone store, the settle table, the queue
//! subscription, the image cache, and the client that ties them together.

pub mod browse;
pub mod client;
pub mod debounce;
pub mod event;
pub mod images;
pub mod model;
pub mod queue;
pub mod replay;
pub mod settle;
pub mod store;
pub mod subscription;
pub mod trace;
pub mod view_model;
pub mod zone;

pub use self::zone::NowPlaying;
pub use self::zone::Output;
pub use self::zone::SourceControl;
pub use self::zone::State;
pub use self::zone::Zone;
pub use self::store::ZoneStore;
pub use self::view_model::build_ws_zone_data_from_zones;
pub use self::view_model::WsMessage;
pub use self::view_model::WsZoneData;
pub use self::debounce::DebounceTable;
pub use self::debounce::PendingTask;
pub use self::debounce::SettleKind;
pub use self::images::ImageCache;
pub use self::images::ImageData;
pub use self::images::ImageFormat;
pub use self::queue::QueueChange;
pub use self::queue::QueueItem;
pub use self::queue::QueueOperation;
pub use self::queue::QueueRequest;
pub use self::queue::QueueSubscription;
pub use self::event::ActionError;
pub use self::event::Command;
pub use self::event::Control;
pub use self::event::Effect;
pub use self::event::Event;
pub use self::event::ZoneSeek;
pub use self::client::RoonClient;
pub use self::client::DEFAULT_PREMIUM_PREFIX;
