# bintrade_egui

A desktop program for trading on Binance: live charts and orders, orders over
candles of the past, and candles kept on disk.

- `src/` is the library, verified with Verus: the candles and intervals, the
  orders and what they do to the amounts held, the messages of the exchange's
  streams, the client of the exchange step by step, the statements for the data
  base, the settings and their keys, and what each window shows and asks for.
- `app/` is the program around it: the requests, the streams, the data base, the
  tasks and the windows.
- `tests/` runs the library on concrete values.

The library does no arithmetic on floats. It takes any number type whose
operators are functions of their operands (see `src/num.rs`), and the functions
that read, round and convert such numbers as arguments; `app/numbers.rs` holds
those for `f64` and `f32`.
