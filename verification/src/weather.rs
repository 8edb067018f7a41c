pub mod client;
pub mod types;

pub use client::WeatherClient;
pub use types::{
    Clouds, Coord, Main, Sys, Weather, WeatherRequestWasm, WeatherResponse, WeatherResponseWasm,
    Wind,
};
