pub mod config;
pub mod csv_files;
pub mod feedback;
pub mod fifo;
pub mod function_codes;
pub mod recording;
pub mod registers;
pub mod routes;
pub mod sensor;
pub mod session;
pub mod settings;
pub mod text;
pub mod tss_ml;
pub mod types;

pub use csv_files::is_safe_csv_filename;
pub use fifo::fifo_read_count;
