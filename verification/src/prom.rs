//! The crate's trusted window onto the `prometheus` metrics library: the
//! gauge type, names for what a gauge carries, and wrappers for creating a
//! gauge, storing a value in it, and rendering it in the text exposition
//! format. Everything stated here was read off the library's source; all
//! other reasoning about the gauge is verified against these contracts.

use vstd::prelude::*;
use crate::format::exposition_text;
use crate::format::int_to_decimal;
use crate::format::is_valid_label_name;
use crate::format::is_valid_metric_name;

verus! {

#[verifier::external_type_specification]
#[verifier::external_body]
pub struct ExError(prometheus::Error);

/// An integer gauge of the metrics library. The gauge type itself cannot be
/// declared to the verifier (its type parameter is bound by the library's
/// `Atomic` trait), so the handle is held opaquely here; a gauge handle
/// shares its cell, so every mutation in this crate goes through `&mut`.
#[verifier::external_body]
pub struct CcuGauge {
    inner: prometheus::IntGauge,
}

/// The value the gauge currently holds.
pub uninterp spec fn gauge_value(g: CcuGauge) -> int;

/// The gauge's fully qualified metric name.
pub uninterp spec fn gauge_name(g: CcuGauge) -> Seq<char>;

/// The gauge's help string.
pub uninterp spec fn gauge_help(g: CcuGauge) -> Seq<char>;

/// The gauge's constant label pairs, in the order they are exposed
/// (ascending by label name).
pub uninterp spec fn gauge_labels(g: CcuGauge) -> Seq<(Seq<char>, Seq<char>)>;

/// Relies on `Opts::new`, `Opts::const_label` and `IntGauge::with_opts`:
/// the descriptor is accepted exactly when the help string is not empty,
/// the metric name matches `[a-zA-Z_:][a-zA-Z0-9_:]*`, and the label name
/// matches `[a-zA-Z_][a-zA-Z0-9_]*`; the new gauge then carries that name,
/// help and single constant label, and starts at zero.
#[verifier::external_body]
pub(crate) fn int_gauge_new(name: &str, help: &str, label_key: &str, label_value: &str) -> (res:
    Result<CcuGauge, prometheus::Error>)
    ensures
        res is Ok <==> (help@.len() > 0 && is_valid_metric_name(name@) && is_valid_label_name(
            label_key@,
        )),
        res matches Ok(g) ==> gauge_name(g) == name@ && gauge_help(g) == help@ && gauge_labels(g)
            =~= seq![(label_key@, label_value@)] && gauge_value(g) == 0,
{
    let opts = prometheus::Opts::new(name, help).const_label(label_key, label_value);
    match prometheus::IntGauge::with_opts(opts) {
        Ok(inner) => Ok(CcuGauge { inner }),
        Err(e) => Err(e),
    }
}

/// Relies on `GenericGauge::set`: stores exactly the given value; the
/// descriptor (name, help, constant labels) is immutable and kept.
#[verifier::external_body]
pub(crate) fn int_gauge_set(g: &mut CcuGauge, v: i64)
    ensures
        gauge_value(*final(g)) == v as int,
        gauge_name(*final(g)) == gauge_name(*old(g)),
        gauge_help(*final(g)) == gauge_help(*old(g)),
        gauge_labels(*final(g)) == gauge_labels(*old(g)),
{
    g.inner.set(v);
}

/// Relies on `Collector::collect` for `GenericGauge` and
/// `TextEncoder::encode_utf8`: the gauge collects into one metric family
/// carrying its descriptor and current value, and the encoder renders that
/// family as a `# HELP` line (skipped for an empty help string), a `# TYPE`
/// line, and one sample line; encoding into a `String` only fails on a
/// family without a name. The sample value is carried as a float, so its
/// rendering is stated only inside the range where that is exact.
#[verifier::external_body]
pub(crate) fn int_gauge_expose(g: &CcuGauge) -> (res: Result<
    String,
    prometheus::Error,
>)
    ensures
        gauge_name(*g).len() > 0 ==> res is Ok,
        res matches Ok(s) ==> (-9007199254740992 <= gauge_value(*g) <= 9007199254740992 ==> s@
            == exposition_text(
            gauge_name(*g),
            gauge_help(*g),
            gauge_labels(*g),
            int_to_decimal(gauge_value(*g)),
        )),
{
    let families = prometheus::core::Collector::collect(&g.inner);
    let mut out = String::new();
    match prometheus::TextEncoder::new().encode_utf8(&families, &mut out) {
        Ok(()) => Ok(out),
        Err(e) => Err(e),
    }
}

} // verus!
