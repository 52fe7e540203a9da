use vstd::prelude::*;
use crate::callback::{built, read_fn, FnView, FnWithArgs, FnWithArgsOrT};
use crate::scalar::{BoolString, NumberString};
use crate::value::{
    field, lemma_array_view, lemma_field_of_with_field, lemma_object_view, lemma_with_field_same,
    lemma_with_field_twice, items_view, members_view, with_field, JsValue, JsView,
};
use crate::wire::Deserialize;

verus! {

/// The live function that a descriptor stands for, as a value.
pub open spec fn function_value(d: FnView) -> JsView {
    JsView::Function(built(d).0, built(d).1)
}

/// Whether a field is there and holds something.
pub open spec fn present(v: Option<JsView>) -> bool {
    v matches Some(x) && x != JsView::Undefined
}

/// The object after its field `name` was rehydrated as a callback of `n`
/// parameters: the live function in place of a descriptor, and no change
/// where the field is absent or holds no such descriptor.
pub open spec fn rehydrated_fn(obj: JsView, name: Seq<char>, n: usize) -> JsView {
    if present(field(obj, name)) {
        match read_fn(field(obj, name)->Some_0, n) {
            Ok(d) => with_field(obj, name, function_value(d)),
            Err(_) => obj,
        }
    } else {
        obj
    }
}

/// The object after its field `name` was rehydrated as a plain value or a
/// callback of `n` parameters: the live function in place of a descriptor,
/// and no change where the field is absent, holds a plain value or holds
/// neither.
pub open spec fn rehydrated_or<T: Deserialize>(obj: JsView, name: Seq<char>, n: usize) -> JsView {
    if present(field(obj, name)) && !T::readable(field(obj, name)->Some_0) {
        match read_fn(field(obj, name)->Some_0, n) {
            Ok(d) => with_field(obj, name, function_value(d)),
            Err(_) => obj,
        }
    } else {
        obj
    }
}

/// The object after the field `inner` of its member `outer` was
/// rehydrated as a callback.
pub open spec fn rehydrated_fn_2(obj: JsView, outer: Seq<char>, inner: Seq<char>, n: usize) -> JsView {
    if present(field(obj, outer)) {
        with_field(obj, outer, rehydrated_fn(field(obj, outer)->Some_0, inner, n))
    } else {
        obj
    }
}

/// The object after the field `inner` of its member `outer` was
/// rehydrated as a plain value or a callback.
pub open spec fn rehydrated_or_2<T: Deserialize>(
    obj: JsView,
    outer: Seq<char>,
    inner: Seq<char>,
    n: usize,
) -> JsView {
    if present(field(obj, outer)) {
        with_field(obj, outer, rehydrated_or::<T>(field(obj, outer)->Some_0, inner, n))
    } else {
        obj
    }
}

/// A dataset after the callbacks that it may hold were rehydrated.
pub open spec fn rehydrated_dataset(d: JsView) -> JsView {
    let d = rehydrated_or::<String>(d, "backgroundColor"@, 2);
    let d = rehydrated_fn_2(d, "segment"@, "borderDash"@, 1);
    let d = rehydrated_fn_2(d, "segment"@, "borderColor"@, 1);
    let d = rehydrated_or_2::<String>(d, "datalabels"@, "align"@, 1);
    let d = rehydrated_or_2::<String>(d, "datalabels"@, "anchor"@, 1);
    let d = rehydrated_or_2::<String>(d, "datalabels"@, "backgroundColor"@, 1);
    let d = rehydrated_fn_2(d, "datalabels"@, "formatter"@, 2);
    let d = rehydrated_or_2::<NumberString>(d, "datalabels"@, "offset"@, 1);
    rehydrated_or_2::<BoolString>(d, "datalabels"@, "display"@, 1)
}

/// A scale after the callback of its ticks was rehydrated.
pub open spec fn rehydrated_scale(s: JsView) -> JsView {
    rehydrated_fn_2(s, "ticks"@, "callback"@, 3)
}

/// The legend plugin after the callbacks of its labels were rehydrated.
pub open spec fn rehydrated_legend(l: JsView) -> JsView {
    rehydrated_fn_2(rehydrated_fn_2(l, "labels"@, "filter"@, 2), "labels"@, "sort"@, 3)
}

/// The tooltip plugin after its callbacks were rehydrated.
pub open spec fn rehydrated_tooltip(t: JsView) -> JsView {
    let t = rehydrated_fn(t, "filter"@, 1);
    let t = rehydrated_fn_2(t, "callbacks"@, "label"@, 1);
    rehydrated_fn_2(t, "callbacks"@, "title"@, 1)
}

/// A list of datasets after each was rehydrated; a value that is no list
/// as it is.
pub open spec fn rehydrated_datasets(sets: JsView) -> JsView {
    match sets {
        JsView::Array(items) => JsView::Array(
            Seq::new(items.len(), |i: int| rehydrated_dataset(items[i])),
        ),
        _ => sets,
    }
}

/// The `data` of a chart after its `datasets` were rehydrated.
pub open spec fn rehydrated_data(data: JsView) -> JsView {
    match field(data, "datasets"@) {
        Some(sets) => with_field(data, "datasets"@, rehydrated_datasets(sets)),
        None => data,
    }
}

/// The scales of a chart after each was rehydrated; a value that is no
/// object as it is.
pub open spec fn rehydrated_scales(scales: JsView) -> JsView {
    match scales {
        JsView::Object(members) => JsView::Object(
            Seq::new(members.len(), |i: int| (members[i].0, rehydrated_scale(members[i].1))),
        ),
        _ => scales,
    }
}

/// The plugins of a chart after the legend and the tooltip were
/// rehydrated.
pub open spec fn rehydrated_plugins(plugins: JsView) -> JsView {
    let plugins = match field(plugins, "legend"@) {
        Some(l) => with_field(plugins, "legend"@, rehydrated_legend(l)),
        None => plugins,
    };
    match field(plugins, "tooltip"@) {
        Some(t) => with_field(plugins, "tooltip"@, rehydrated_tooltip(t)),
        None => plugins,
    }
}

/// The `options` of a chart after its scales and its plugins were
/// rehydrated.
pub open spec fn rehydrated_options(options: JsView) -> JsView {
    let options = match field(options, "scales"@) {
        Some(s) => with_field(options, "scales"@, rehydrated_scales(s)),
        None => options,
    };
    match field(options, "plugins"@) {
        Some(p) => with_field(options, "plugins"@, rehydrated_plugins(p)),
        None => options,
    }
}

/// A chart's configuration after every field that may hold a callback was
/// rehydrated: those of each dataset under `data.datasets`, of each scale
/// under `options.scales`, and of the legend and the tooltip under
/// `options.plugins`.
pub open spec fn rehydrated_chart(obj: JsView) -> JsView {
    let obj = match field(obj, "data"@) {
        Some(d) => with_field(obj, "data"@, rehydrated_data(d)),
        None => obj,
    };
    match field(obj, "options"@) {
        Some(o) => with_field(obj, "options"@, rehydrated_options(o)),
        None => obj,
    }
}

/// What the field `name` of `obj` reads as; nothing where the field is
/// absent, holds `Undefined` or does not read as a `D`.
fn read_field<D: Deserialize>(obj: &JsValue, name: &str) -> (r: Option<D>)
    ensures
        match r {
            Some(x) => present(field(obj@, name@)) && D::readable(field(obj@, name@)->Some_0)
                && x.reads(field(obj@, name@)->Some_0),
            None => !present(field(obj@, name@)) || !D::readable(field(obj@, name@)->Some_0),
        },
{
    match obj.get(name) {
        None => None,
        Some(JsValue::Undefined) => None,
        Some(a) => match D::deserialize(a) {
            Ok(o) => Some(o),
            Err(_) => None,
        },
    }
}

impl<const N: usize> FnWithArgs<N> {
    /// Puts the live function in place of the descriptor that the field
    /// `name` of `obj` holds. An object without the field, or with
    /// something else in it, stays as it is.
    pub fn rationalise_1_level(obj: JsValue, name: &str) -> (r: JsValue)
        ensures
            r@ == rehydrated_fn(obj@, name@, N),
            !present(field(obj@, name@)) ==> r@ == obj@,
    {
        match read_field::<FnWithArgs<N>>(&obj, name) {
            Some(o) => {
                let f = o.build();
                obj.set(name, JsValue::Function(f.args, f.body))
            },
            None => obj,
        }
    }

    /// Puts the live function in place of the descriptor that the field
    /// `name.1` of the member `name.0` of `obj` holds. An object without
    /// the member or the field stays as it is.
    pub fn rationalise_2_levels(obj: JsValue, name: (&str, &str)) -> (r: JsValue)
        ensures
            r@ == rehydrated_fn_2(obj@, name.0@, name.1@, N),
            !present(field(obj@, name.0@)) ==> r@ == obj@,
            field(obj@, name.0@) matches Some(a) && !present(field(a, name.1@)) ==> r@ == obj@,
    {
        proof {
            lemma_with_field_same(obj@, name.0@);
        }
        let (rest, outer) = obj.take(name.0);
        match outer {
            None => rest,
            Some(JsValue::Undefined) => {
                proof {
                    lemma_with_field_twice(obj@, name.0@, JsView::Undefined, JsView::Undefined);
                }
                rest.set(name.0, JsValue::Undefined)
            },
            Some(a) => {
                proof {
                    lemma_with_field_twice(
                        obj@,
                        name.0@,
                        JsView::Undefined,
                        rehydrated_fn(a@, name.1@, N),
                    );
                }
                let a = FnWithArgs::<N>::rationalise_1_level(a, name.1);
                rest.set(name.0, a)
            },
        }
    }
}

impl<const N: usize, T: Deserialize> FnWithArgsOrT<N, T> {
    /// Puts the live function in place of the descriptor that the field
    /// `name` of `obj` holds. An object without the field, with a plain
    /// value in it or with something that reads as neither stays as it
    /// is.
    pub fn rationalise_1_level(obj: JsValue, name: &str) -> (r: JsValue)
        ensures
            r@ == rehydrated_or::<T>(obj@, name@, N),
            !present(field(obj@, name@)) ==> r@ == obj@,
    {
        match read_field::<FnWithArgsOrT<N, T>>(&obj, name) {
            Some(FnWithArgsOrT::FnWithArgs(fnwa)) => {
                let f = fnwa.build();
                obj.set(name, JsValue::Function(f.args, f.body))
            },
            Some(FnWithArgsOrT::T(_)) => obj,
            None => obj,
        }
    }

    /// Puts the live function in place of the descriptor that the field
    /// `name.1` of the member `name.0` of `obj` holds. An object without
    /// the member or the field stays as it is.
    pub fn rationalise_2_levels(obj: JsValue, name: (&str, &str)) -> (r: JsValue)
        ensures
            r@ == rehydrated_or_2::<T>(obj@, name.0@, name.1@, N),
            !present(field(obj@, name.0@)) ==> r@ == obj@,
            field(obj@, name.0@) matches Some(a) && !present(field(a, name.1@)) ==> r@ == obj@,
    {
        proof {
            lemma_with_field_same(obj@, name.0@);
        }
        let (rest, outer) = obj.take(name.0);
        match outer {
            None => rest,
            Some(JsValue::Undefined) => {
                proof {
                    lemma_with_field_twice(obj@, name.0@, JsView::Undefined, JsView::Undefined);
                }
                rest.set(name.0, JsValue::Undefined)
            },
            Some(a) => {
                proof {
                    lemma_with_field_twice(
                        obj@,
                        name.0@,
                        JsView::Undefined,
                        rehydrated_or::<T>(a@, name.1@, N),
                    );
                }
                let a = FnWithArgsOrT::<N, T>::rationalise_1_level(a, name.1);
                rest.set(name.0, a)
            },
        }
    }
}

/// Rehydrating a field a second time changes nothing: the live function
/// that stands in it is no descriptor.
pub proof fn lemma_rehydrated_fn_again(obj: JsView, name: Seq<char>, n: usize)
    ensures
        rehydrated_fn(rehydrated_fn(obj, name, n), name, n) == rehydrated_fn(obj, name, n),
{
    if present(field(obj, name)) {
        match read_fn(field(obj, name)->Some_0, n) {
            Ok(d) => {
                lemma_field_of_with_field(obj, name, function_value(d));
            },
            Err(_) => {},
        }
    }
}

/// An object without the field comes out of rehydration as it went in.
pub proof fn lemma_absent_field_unchanged(obj: JsView, name: Seq<char>, n: usize)
    requires
        field(obj, name) is None,
    ensures
        rehydrated_fn(obj, name, n) == obj,
        rehydrated_or::<String>(obj, name, n) == obj,
        rehydrated_or::<NumberString>(obj, name, n) == obj,
        rehydrated_or::<BoolString>(obj, name, n) == obj,
{
}

/// An object without the member `outer`, or whose member `outer` has no
/// field `inner`, comes out of rehydration as it went in.
pub proof fn lemma_absent_path_unchanged(obj: JsView, outer: Seq<char>, inner: Seq<char>, n: usize)
    requires
        field(obj, outer) matches Some(a) ==> field(a, inner) is None,
    ensures
        rehydrated_fn_2(obj, outer, inner, n) == obj,
        rehydrated_or_2::<String>(obj, outer, inner, n) == obj,
        rehydrated_or_2::<NumberString>(obj, outer, inner, n) == obj,
        rehydrated_or_2::<BoolString>(obj, outer, inner, n) == obj,
{
    lemma_with_field_same(obj, outer);
}

/// Rehydrates the callbacks of one dataset.
pub fn rationalise_dataset(dataset: JsValue) -> (r: JsValue)
    ensures
        r@ == rehydrated_dataset(dataset@),
{
    let d = FnWithArgsOrT::<2, String>::rationalise_1_level(dataset, "backgroundColor");
    let d = FnWithArgs::<1>::rationalise_2_levels(d, ("segment", "borderDash"));
    let d = FnWithArgs::<1>::rationalise_2_levels(d, ("segment", "borderColor"));
    let d = FnWithArgsOrT::<1, String>::rationalise_2_levels(d, ("datalabels", "align"));
    let d = FnWithArgsOrT::<1, String>::rationalise_2_levels(d, ("datalabels", "anchor"));
    let d = FnWithArgsOrT::<1, String>::rationalise_2_levels(d, ("datalabels", "backgroundColor"));
    let d = FnWithArgs::<2>::rationalise_2_levels(d, ("datalabels", "formatter"));
    let d = FnWithArgsOrT::<1, NumberString>::rationalise_2_levels(d, ("datalabels", "offset"));
    FnWithArgsOrT::<1, BoolString>::rationalise_2_levels(d, ("datalabels", "display"))
}

/// Rehydrates the callback of the ticks of one scale.
pub fn rationalise_scale(scale: JsValue) -> (r: JsValue)
    ensures
        r@ == rehydrated_scale(scale@),
{
    FnWithArgs::<3>::rationalise_2_levels(scale, ("ticks", "callback"))
}

/// Rehydrates the callbacks of the legend plugin.
pub fn rationalise_legend(legend: JsValue) -> (r: JsValue)
    ensures
        r@ == rehydrated_legend(legend@),
{
    let l = FnWithArgs::<2>::rationalise_2_levels(legend, ("labels", "filter"));
    FnWithArgs::<3>::rationalise_2_levels(l, ("labels", "sort"))
}

/// Rehydrates the callbacks of the tooltip plugin.
pub fn rationalise_tooltip(tooltip: JsValue) -> (r: JsValue)
    ensures
        r@ == rehydrated_tooltip(tooltip@),
{
    let t = FnWithArgs::<1>::rationalise_1_level(tooltip, "filter");
    let t = FnWithArgs::<1>::rationalise_2_levels(t, ("callbacks", "label"));
    FnWithArgs::<1>::rationalise_2_levels(t, ("callbacks", "title"))
}

/// Rehydrates each dataset of a list. A value that is no list stays as it
/// is.
pub fn rationalise_datasets(sets: JsValue) -> (r: JsValue)
    ensures
        r@ == rehydrated_datasets(sets@),
{
    match sets {
        JsValue::Array(items) => {
            proof {
                lemma_array_view(items);
            }
            let ghost before = items_view(items@);
            let mut items = items;
            let mut out: Vec<JsValue> = Vec::new();
            let n = items.len();
            let mut i: usize = 0;
            while i < n
                invariant
                    i <= n,
                    n == before.len(),
                    items@.len() == n - i,
                    out@.len() == i,
                    forall|j: int| 0 <= j < n - i ==> (#[trigger] items@[j])@ == before[i + j],
                    forall|j: int| 0 <= j < i ==> (#[trigger] out@[j])@ == rehydrated_dataset(before[j]),
                decreases n - i,
            {
                let d = items.remove(0);
                assert(d@ == before[i as int]);
                out.push(rationalise_dataset(d));
                i += 1;
            }
            proof {
                lemma_array_view(out);
                assert(items_view(out@) =~= Seq::new(
                    before.len(),
                    |i: int| rehydrated_dataset(before[i]),
                ));
            }
            JsValue::Array(out)
        },
        other => other,
    }
}

/// Rehydrates each scale of an object of scales. A value that is no object
/// stays as it is.
pub fn rationalise_scales(scales: JsValue) -> (r: JsValue)
    ensures
        r@ == rehydrated_scales(scales@),
{
    match scales {
        JsValue::Object(members) => {
            proof {
                lemma_object_view(members);
            }
            let ghost before = members_view(members@);
            let mut members = members;
            let mut out: Vec<(String, JsValue)> = Vec::new();
            let n = members.len();
            let mut i: usize = 0;
            while i < n
                invariant
                    i <= n,
                    n == before.len(),
                    members@.len() == n - i,
                    out@.len() == i,
                    forall|j: int|
                        0 <= j < n - i ==> (#[trigger] members@[j]).0@ == before[i + j].0
                            && members@[j].1@ == before[i + j].1,
                    forall|j: int|
                        0 <= j < i ==> (#[trigger] out@[j]).0@ == before[j].0 && out@[j].1@
                            == rehydrated_scale(before[j].1),
                decreases n - i,
            {
                let m = members.remove(0);
                assert(m.1@ == before[i as int].1);
                out.push((m.0, rationalise_scale(m.1)));
                i += 1;
            }
            proof {
                lemma_object_view(out);
                assert(members_view(out@) =~= Seq::new(
                    before.len(),
                    |i: int| (before[i].0, rehydrated_scale(before[i].1)),
                ));
            }
            JsValue::Object(out)
        },
        other => other,
    }
}

/// Rehydrates the `datasets` of the `data` of a chart.
pub fn rationalise_data(data: JsValue) -> (r: JsValue)
    ensures
        r@ == rehydrated_data(data@),
{
    let (rest, sets) = data.take("datasets");
    match sets {
        Some(s) => {
            proof {
                lemma_with_field_twice(data@, "datasets"@, JsView::Undefined, rehydrated_datasets(s@));
            }
            rest.set("datasets", rationalise_datasets(s))
        },
        None => rest,
    }
}

/// Rehydrates the legend and the tooltip of the plugins of a chart.
pub fn rationalise_plugins(plugins: JsValue) -> (r: JsValue)
    ensures
        r@ == rehydrated_plugins(plugins@),
{
    let (rest, legend) = plugins.take("legend");
    let plugins = match legend {
        Some(l) => {
            proof {
                lemma_with_field_twice(plugins@, "legend"@, JsView::Undefined, rehydrated_legend(l@));
            }
            rest.set("legend", rationalise_legend(l))
        },
        None => rest,
    };
    let (rest, tooltip) = plugins.take("tooltip");
    match tooltip {
        Some(t) => {
            proof {
                lemma_with_field_twice(
                    plugins@,
                    "tooltip"@,
                    JsView::Undefined,
                    rehydrated_tooltip(t@),
                );
            }
            rest.set("tooltip", rationalise_tooltip(t))
        },
        None => rest,
    }
}

/// Rehydrates the scales and the plugins of the options of a chart.
pub fn rationalise_options(options: JsValue) -> (r: JsValue)
    ensures
        r@ == rehydrated_options(options@),
{
    let (rest, scales) = options.take("scales");
    let options = match scales {
        Some(s) => {
            proof {
                lemma_with_field_twice(options@, "scales"@, JsView::Undefined, rehydrated_scales(s@));
            }
            rest.set("scales", rationalise_scales(s))
        },
        None => rest,
    };
    let (rest, plugins) = options.take("plugins");
    match plugins {
        Some(p) => {
            proof {
                lemma_with_field_twice(
                    options@,
                    "plugins"@,
                    JsView::Undefined,
                    rehydrated_plugins(p@),
                );
            }
            rest.set("plugins", rationalise_plugins(p))
        },
        None => rest,
    }
}

/// Rehydrates every field of a chart's configuration that may hold a
/// callback.
pub fn rationalise(obj: JsValue) -> (r: JsValue)
    ensures
        r@ == rehydrated_chart(obj@),
{
    let (rest, data) = obj.take("data");
    let obj = match data {
        Some(d) => {
            proof {
                lemma_with_field_twice(obj@, "data"@, JsView::Undefined, rehydrated_data(d@));
            }
            rest.set("data", rationalise_data(d))
        },
        None => rest,
    };
    let (rest, options) = obj.take("options");
    match options {
        Some(o) => {
            proof {
                lemma_with_field_twice(obj@, "options"@, JsView::Undefined, rehydrated_options(o@));
            }
            rest.set("options", rationalise_options(o))
        },
        None => rest,
    }
}

/// A chart without `data` and without `options` comes out of rehydration
/// as it went in.
pub proof fn lemma_bare_chart_unchanged(obj: JsView)
    requires
        field(obj, "data"@) is None,
        field(obj, "options"@) is None,
    ensures
        rehydrated_chart(obj) == obj,
{
}

} // verus!
