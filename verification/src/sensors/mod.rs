pub mod bme280;
