//! A collection of format strings, ready to use.

use vstd::prelude::*;

verus! {

pub const TOML: &'static str = "[%T(%+)]\ntarget = \"%N\"\nlevel = \"%L\"\ninfo = \"%M\"\n\n";

pub const YAML: &'static str = "- date: %T(%+)\n  target: %N\n  level: %L\n  info: %M\n\n";

pub const SIMPLE1: &'static str = "%F(red,yellow,green,purple,blue){%b{%L}}: %M\n";

pub const SIMPLE1_LOWER: &'static str = "%F(red,yellow,green,purple,blue){%b{%l}}: %M\n";

pub const SIMPLE2: &'static str = "[%F(red,yellow,green,purple,blue){%b{%L}}] %M\n";

pub const SIMPLE2_LOWER: &'static str = "[%F(red,yellow,green,purple,blue){%b{%l}}] %M\n";

pub const DETAIL1: &'static str =
    "[%T(%Y/%m/%d %T) %N] %F(red,yellow,green,purple,blue){%b{%L}}: %M\n";

pub const DETAIL1_LOWER: &'static str =
    "[%T(%Y/%m/%d %T) %N] %F(red,yellow,green,purple,blue){%b{%l}}: %M\n";

pub const DETAIL2: &'static str =
    "[%F(red,yellow,green,purple,blue){%b{%L}}] %M (at %T(%b %d %T) in %N)\n";

pub const DETAIL2_LOWER: &'static str =
    "[%F(red,yellow,green,purple,blue){%b{%l}}] %M (at %T(%b %d %T) in %N)\n";

pub const DEBUG1: &'static str = "[%N (%S)] %F(red,yellow,green,purple,blue){%b{%L}}: %M\n";

pub const DEBUG1_LOWER: &'static str = "[%N (%S)] %F(red,yellow,green,purple,blue){%b{%l}}: %M\n";

pub const DEBUG2: &'static str = "[%F(red,yellow,green,purple,blue){%b{%L}}] %M (at %S in %N)\n";

pub const DEBUG2_LOWER: &'static str =
    "[%F(red,yellow,green,purple,blue){%b{%l}}] %M (at %S in %N)\n";

pub const PRETTY_ENV_LOGGER: &'static str = " %F(red,yellow,green,blue,purple){%L} %b{%N} > %M\n";

pub const FLEXI_LOGGER: &'static str =
    "%F(red,yellow,white,white,black){%b{%L}} [%m] %F(red,yellow,white,white,black){%b{%M}}\n";

pub const STDERRLOG: &'static str = "%F(red,purple,yellow,cyan,blue){%L - %M}\n";

pub const ENV_LOGGER: &'static str =
    "%F(bright black){[}%T(%Y-%m-%dT%TZ) %F(red,yellow,green,blue,cyan){%L} %N%F(bright black){]} %M\n";

pub const FLEXI_LOGGER2: &'static str =
    "%F(red,yellow,white,white,black){%b{%T(%Y-%m-%d %T%.6f %:z) %L}} [%m] %S: %F(red,yellow,white,white,black){%b{%M}}\n";

pub const SIMPLE_LOGGER: &'static str =
    "%T(%Y-%m-%d %T) %F(red,yellow,cyan,purple,white){%L} [%N] %M\n";

pub const SIMPLELOG: &'static str = "%T(%T) [%L] %M\n";

pub const STDERRLOG2: &'static str =
    "%F(red,purple,yellow,cyan,blue){%T(%Y-%m-%dT%T%:z) - %L - %M}\n";

} // verus!
