pub mod candles;
