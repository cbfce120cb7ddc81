pub mod codec;
pub mod live_scan;
pub mod mock_provider;
pub mod provider;
pub mod reading;
pub mod scanner;
