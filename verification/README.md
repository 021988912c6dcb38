# extendr_wrappers

The part of an R extension library for Rust that makes Rust functions callable from R and lets R
hold Rust values, verified with Verus.

* `src/` is the verified library. Given the signature of a function, it generates the wrapper that
  R calls and the function that registers its metadata; given a value, it makes an external pointer
  that R can hold, and finds the value again by its address. What it takes from `proc_macro2`,
  `syn` and the standard library, and what it relies on there, is in `src/outside.rs`.
* `app/` connects the library to `syn`'s syntax trees and to R's C interface.
* `tests/` runs the library.
