pub mod pacing;
pub mod pagination;
pub mod request;
pub mod results_page;
