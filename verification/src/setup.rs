//! Reading an effect's options: from the options object handed to the
//! constructor, or from an element's `data-lg-*` attributes; and the decisions
//! the setup of an element makes from what the page reports.

use vstd::prelude::*;
use vstd::string::StringSliceAdditionalSpecFns;
use wasm_bindgen::JsValue;

use crate::js::{js_new_object, js_string, reflect_set};
use crate::observed::{as_flag, as_text, check_string, get_property, ConversionAnswer, PropertyAnswer, StringCheck};

verus! {

broadcast use vstd::utf8::encode_utf8_decode_utf8;

/// A text option as its view.
pub open spec fn text_option(o: Option<String>) -> Option<Seq<char>> {
    match o {
        Some(s) => Some(s@),
        None => None,
    }
}

/// The value an option takes: the one found, else the default.
pub fn resolve_string(found: Option<String>, default: &str) -> (r: String)
    ensures
        r@ == (match found {
            Some(s) => s@,
            None => default@,
        }),
{
    match found {
        Some(s) => s,
        None => default.to_owned(),
    }
}

/// The value a flag takes: the one found, else the default.
pub fn resolve_bool(found: Option<bool>, default: bool) -> (r: bool)
    ensures
        r == (match found {
            Some(b) => b,
            None => default,
        }),
{
    match found {
        Some(b) => b,
        None => default,
    }
}

/// What reading an option gave: the object and property read, whether the property
/// could be read, and its value when it is of the option's type.
pub struct OptionRead<T> {
    pub source: JsValue,
    pub key: Seq<char>,
    pub read: bool,
    pub found: Option<T>,
    /// The record of the property read.
    pub property: PropertyAnswer,
    /// The record of the conversion of the value read, when it could be read.
    pub conversion: Option<ConversionAnswer<T>>,
}

/// The report of an option read is the record of reading property `key` of
/// `options` and of converting the value read: the value found is what the
/// conversion gave, and nothing is found when the property cannot be read.
pub open spec fn option_read_recorded<T>(rep: OptionRead<T>, options: JsValue, key: Seq<char>) -> bool {
    &&& rep.source == options
    &&& rep.key == key
    &&& rep.property.target() == options
    &&& rep.property.key() == key
    &&& rep.read == (rep.property.value() is Some)
    &&& match rep.property.value() {
        Some(v) => rep.conversion matches Some(c) && c.value() == v && c.converted() == rep.found,
        None => rep.conversion is None && rep.found is None,
    }
}

/// Property `key` of `options` when it is a string; no text when the property
/// cannot be read. The report records the object and property read.
fn lookup_string(options: &JsValue, key: &str) -> (r: (Option<String>, Ghost<OptionRead<Seq<char>>>))
    ensures
        option_read_recorded(r.1@, *options, key@),
        r.1@.found == text_option(r.0),
        !r.1@.read ==> r.0 is None,
{
    let (value, Ghost(property)) = get_property(options, key);
    match value {
        Some(v) => {
            let (found, Ghost(conversion)) = as_text(&v);
            let ghost rep = OptionRead {
                source: *options,
                key: key@,
                read: true,
                found: text_option(found),
                property,
                conversion: Some(conversion),
            };
            (found, Ghost(rep))
        },
        None => {
            let ghost rep = OptionRead {
                source: *options,
                key: key@,
                read: false,
                found: None,
                property,
                conversion: None,
            };
            (None, Ghost(rep))
        },
    }
}

/// Property `key` of `options` when it is a boolean; no value when the property
/// cannot be read. The report records the object and property read.
fn lookup_bool(options: &JsValue, key: &str) -> (r: (Option<bool>, Ghost<OptionRead<bool>>))
    ensures
        option_read_recorded(r.1@, *options, key@),
        r.1@.found == r.0,
        !r.1@.read ==> r.0 is None,
{
    let (value, Ghost(property)) = get_property(options, key);
    match value {
        Some(v) => {
            let (found, Ghost(conversion)) = as_flag(&v);
            let ghost rep = OptionRead {
                source: *options,
                key: key@,
                read: true,
                found,
                property,
                conversion: Some(conversion),
            };
            (found, Ghost(rep))
        },
        None => {
            let ghost rep = OptionRead {
                source: *options,
                key: key@,
                read: false,
                found: None,
                property,
                conversion: None,
            };
            (None, Ghost(rep))
        },
    }
}

/// A string option: the string that property `key` of `options` holds, else
/// `default` (when the property cannot be read or is not a string). The report
/// beside it records the object and property read and what the read gave.
pub fn opt_str(options: &JsValue, key: &str, default: &str) -> (r: (String, Ghost<OptionRead<Seq<char>>>))
    ensures
        r.1@.source == *options,
        r.1@.key == key@,
        option_read_recorded(r.1@, *options, key@),
        !r.1@.read ==> r.1@.found is None,
        r.1@.property.value() is Some ==> r.1@.conversion is Some && r.1@.conversion.unwrap().value()
            == r.1@.property.value().unwrap(),
        r.1@.property.value() is Some && r.1@.conversion.unwrap().converted() is Some ==> r.0@
            == r.1@.conversion.unwrap().converted().unwrap(),
        r.1@.conversion matches Some(c) && c.converted() is None ==> r.0@ == default@,
        r.1@.property.value() is None ==> r.0@ == default@,
        r.0@ == (match r.1@.found {
            Some(t) => t,
            None => default@,
        }),
{
    let (found, Ghost(rep)) = lookup_string(options, key);
    (resolve_string(found, default), Ghost(rep))
}

/// A boolean option: the boolean that property `key` of `options` holds, else
/// `default` (when the property cannot be read or is not a boolean). The report
/// beside it records the object and property read and what the read gave.
pub fn opt_bool(options: &JsValue, key: &str, default: bool) -> (r: (bool, Ghost<OptionRead<bool>>))
    ensures
        r.1@.source == *options,
        r.1@.key == key@,
        option_read_recorded(r.1@, *options, key@),
        !r.1@.read ==> r.1@.found is None,
        r.1@.property.value() is Some ==> r.1@.conversion is Some && r.1@.conversion.unwrap().value()
            == r.1@.property.value().unwrap(),
        r.1@.property.value() is Some && r.1@.conversion.unwrap().converted() is Some ==> r.0
            == r.1@.conversion.unwrap().converted().unwrap(),
        r.1@.conversion matches Some(c) && c.converted() is None ==> r.0 == default,
        r.1@.property.value() is None ==> r.0 == default,
        r.0 == (match r.1@.found {
            Some(b) => b,
            None => default,
        }),
{
    let (found, Ghost(rep)) = lookup_bool(options, key);
    (resolve_bool(found, default), Ghost(rep))
}

/// The data attributes an element may carry, each with the option it sets:
/// `data-lg-intensity`, `data-lg-tint`, `data-lg-blur`, `data-lg-radius` and
/// `data-lg-border` (named as the element's `dataset` names them).
pub open spec fn dataset_option_table() -> Seq<(Seq<char>, Seq<char>)> {
    seq![
        ("lgIntensity"@, "intensity"@),
        ("lgTint"@, "tint"@),
        ("lgBlur"@, "blur"@),
        ("lgRadius"@, "radius"@),
        ("lgBorder"@, "border"@),
    ]
}

/// The data attributes an element may carry and the option each sets, in order.
pub fn dataset_option_keys() -> (keys: Vec<(&'static str, &'static str)>)
    ensures
        keys@.len() == dataset_option_table().len(),
        forall|i: int|
            0 <= i < keys@.len() ==> (#[trigger] keys@[i].0@, keys@[i].1@) == dataset_option_table()[i],
{
    let keys = vec![
        ("lgIntensity", "intensity"),
        ("lgTint", "tint"),
        ("lgBlur", "blur"),
        ("lgRadius", "radius"),
        ("lgBorder", "border"),
    ];
    assert forall|i: int| 0 <= i < keys@.len() implies (#[trigger] keys@[i].0@, keys@[i].1@)
        == dataset_option_table()[i] by {
        if i == 0 {
        } else if i == 1 {
        } else if i == 2 {
        } else if i == 3 {
        } else {
        }
    }
    keys
}

/// What reading one data attribute gave: the object and attribute read, its value
/// when the read succeeded, and whether that value is a string.
pub struct AttributeRead {
    pub source: JsValue,
    pub key: Seq<char>,
    pub value: Option<JsValue>,
    pub is_string: bool,
    /// The record of the attribute read.
    pub property: PropertyAnswer,
    /// The record of asking the value read whether it is a string.
    pub check: Option<StringCheck>,
}

/// The report of an attribute read is the record of reading attribute `key` of
/// `dataset` and of asking the value read whether it is a string.
pub open spec fn attribute_read_recorded(read: AttributeRead, dataset: JsValue, key: Seq<char>) -> bool {
    &&& read.source == dataset
    &&& read.key == key
    &&& read.property.target() == dataset
    &&& read.property.key() == key
    &&& read.property.value() == read.value
    &&& match read.value {
        Some(v) => read.check matches Some(c) && c.value() == v && c.is_string() == read.is_string,
        None => read.check is None && !read.is_string,
    }
}

/// An option set on an object: the object written, the option and its value.
pub struct OptionWrite {
    pub target: JsValue,
    pub key: Seq<char>,
    pub value: JsValue,
}

/// Whether an attribute read is copied into the options: it was read and is a string.
pub open spec fn copied(read: AttributeRead) -> bool {
    read.value is Some && read.is_string
}

/// The options set for the first `n` reads, in order: for each read that is
/// copied, the option its data attribute names (by `dataset_option_table`) gets
/// the value read.
pub open spec fn dataset_writes(target: JsValue, reads: Seq<AttributeRead>, n: int) -> Seq<OptionWrite>
    decreases n,
{
    if n <= 0 {
        Seq::empty()
    } else {
        let prev = dataset_writes(target, reads, n - 1);
        if copied(reads[n - 1]) {
            prev.push(
                OptionWrite {
                    target,
                    key: dataset_option_table()[n - 1].1,
                    value: reads[n - 1].value.unwrap(),
                },
            )
        } else {
            prev
        }
    }
}

proof fn lemma_writes_depend_on_prefix(target: JsValue, a: Seq<AttributeRead>, b: Seq<AttributeRead>, n: int)
    requires
        0 <= n <= a.len(),
        n <= b.len(),
        forall|j: int| 0 <= j < n ==> a[j] == b[j],
    ensures
        dataset_writes(target, a, n) == dataset_writes(target, b, n),
    decreases n,
{
    if n > 0 {
        lemma_writes_depend_on_prefix(target, a, b, n - 1);
    }
}

/// The options built from data attributes are only the options of
/// `dataset_option_table`, each written to the target object; in particular no
/// data attribute ever sets `interactive`.
pub proof fn law_dataset_sets_only_table_options(target: JsValue, reads: Seq<AttributeRead>, n: int)
    requires
        0 <= n <= reads.len(),
        n <= dataset_option_table().len(),
    ensures
        forall|k: int|
            0 <= k < dataset_writes(target, reads, n).len() ==> {
                let w = #[trigger] dataset_writes(target, reads, n)[k];
                &&& w.target == target
                &&& exists|j: int| 0 <= j < n && w.key == dataset_option_table()[j].1
                &&& w.key != "interactive"@
            },
    decreases n,
{
    assert("interactive"@ != "intensity"@ && "interactive"@ != "tint"@ && "interactive"@ != "blur"@
        && "interactive"@ != "radius"@ && "interactive"@ != "border"@) by {
        reveal_strlit("interactive");
        reveal_strlit("intensity");
        reveal_strlit("tint");
        reveal_strlit("blur");
        reveal_strlit("radius");
        reveal_strlit("border");
        assert("interactive"@.len() == 11);
        assert("intensity"@.len() == 9);
        assert("tint"@.len() == 4);
        assert("blur"@.len() == 4);
        assert("radius"@.len() == 6);
        assert("border"@.len() == 6);
    }
    if n > 0 {
        law_dataset_sets_only_table_options(target, reads, n - 1);
        let prev = dataset_writes(target, reads, n - 1);
        assert forall|k: int| 0 <= k < prev.len() implies exists|j: int|
            0 <= j < n && (#[trigger] prev[k]).key == dataset_option_table()[j].1 by {
            let j = choose|j: int| 0 <= j < n - 1 && prev[k].key == dataset_option_table()[j].1;
            assert(0 <= j < n && prev[k].key == dataset_option_table()[j].1);
        }
    }
}

/// Whether some option written has name `key`.
pub open spec fn writes_option(writes: Seq<OptionWrite>, key: Seq<char>) -> bool {
    exists|k: int| 0 <= k < writes.len() && (#[trigger] writes[k]).key == key
}

/// The options of `dataset_option_table` have different names.
proof fn lemma_option_names_distinct()
    ensures
        forall|i: int, j: int|
            0 <= i < dataset_option_table().len() && 0 <= j < dataset_option_table().len() && i != j
                ==> #[trigger] dataset_option_table()[i].1 != #[trigger] dataset_option_table()[j].1,
{
    reveal_strlit("intensity");
    reveal_strlit("tint");
    reveal_strlit("blur");
    reveal_strlit("radius");
    reveal_strlit("border");
    assert("intensity"@.len() == 9);
    assert("tint"@.len() == 4);
    assert("blur"@.len() == 4);
    assert("radius"@.len() == 6);
    assert("border"@.len() == 6);
    assert("tint"@[0] != "blur"@[0]);
    assert("radius"@[0] != "border"@[0]);
}

/// The copy condition of read `i`: it could be read and its value is a string.
spec fn string_read(reads: Seq<AttributeRead>, i: int) -> bool {
    reads[i].value is Some && reads[i].is_string
}

proof fn lemma_copied_attributes(target: JsValue, reads: Seq<AttributeRead>, n: int)
    requires
        0 <= n <= reads.len(),
        n <= dataset_option_table().len(),
        forall|i: int, j: int|
            0 <= i < dataset_option_table().len() && 0 <= j < dataset_option_table().len() && i != j
                ==> #[trigger] dataset_option_table()[i].1 != #[trigger] dataset_option_table()[j].1,
    ensures
        forall|k: int|
            0 <= k < dataset_writes(target, reads, n).len() ==> (#[trigger] dataset_writes(target, reads, n)[k]).target
                == target,
        forall|k: int, i: int|
            0 <= k < dataset_writes(target, reads, n).len() && 0 <= i < dataset_option_table().len()
                && (#[trigger] dataset_writes(target, reads, n)[k]).key == #[trigger] dataset_option_table()[i].1 ==> {
                &&& i < n
                &&& string_read(reads, i)
                &&& dataset_writes(target, reads, n)[k].value == reads[i].value.unwrap()
            },
        forall|i: int|
            0 <= i < n && #[trigger] string_read(reads, i) ==> writes_option(
                dataset_writes(target, reads, n),
                dataset_option_table()[i].1,
            ),
    decreases n,
{
    if n > 0 {
        lemma_copied_attributes(target, reads, n - 1);
        let prev = dataset_writes(target, reads, n - 1);
        let w = dataset_writes(target, reads, n);
        if copied(reads[n - 1]) {
            let new_write = OptionWrite {
                target,
                key: dataset_option_table()[n - 1].1,
                value: reads[n - 1].value.unwrap(),
            };
            assert(w == prev.push(new_write));
            assert forall|i: int| 0 <= i < n && #[trigger] string_read(reads, i) implies writes_option(
                w,
                dataset_option_table()[i].1,
            ) by {
                if i < n - 1 {
                    assert(writes_option(prev, dataset_option_table()[i].1));
                    let k = choose|k: int| 0 <= k < prev.len() && (#[trigger] prev[k]).key == dataset_option_table()[i].1;
                    assert(w[k] == prev[k]);
                } else {
                    assert(w[prev.len() as int] == new_write);
                }
            }
            assert forall|k: int, i: int|
                0 <= k < w.len() && 0 <= i < dataset_option_table().len() && (#[trigger] w[k]).key
                    == #[trigger] dataset_option_table()[i].1 implies {
                &&& i < n
                &&& string_read(reads, i)
                &&& w[k].value == reads[i].value.unwrap()
            } by {
                if k < prev.len() {
                    assert(w[k] == prev[k]);
                } else {
                    assert(w[k] == new_write);
                    if i != n - 1 {
                        assert(dataset_option_table()[i].1 != dataset_option_table()[n - 1].1);
                    }
                }
            }
            assert forall|k: int| 0 <= k < w.len() implies (#[trigger] w[k]).target == target by {
                if k < prev.len() {
                    assert(w[k] == prev[k]);
                }
            }
        } else {
            assert(w == prev);
            assert forall|i: int| 0 <= i < n && #[trigger] string_read(reads, i) implies writes_option(
                w,
                dataset_option_table()[i].1,
            ) by {
                if i == n - 1 {
                    assert(copied(reads[n - 1]));
                }
            }
            assert forall|k: int, i: int|
                0 <= k < w.len() && 0 <= i < dataset_option_table().len() && (#[trigger] w[k]).key
                    == #[trigger] dataset_option_table()[i].1 implies i < n by {
            }
        }
    }
}

/// A data attribute reaches the options exactly when it could be read and its
/// value is a string; then the option it names gets exactly the value read. Every
/// option is written to the target object.
pub proof fn law_string_attributes_copied(target: JsValue, reads: Seq<AttributeRead>)
    requires
        reads.len() == dataset_option_table().len(),
    ensures
        forall|i: int|
            0 <= i < reads.len() ==> (writes_option(
                dataset_writes(target, reads, reads.len() as int),
                #[trigger] dataset_option_table()[i].1,
            ) <==> (reads[i].value is Some && reads[i].is_string)),
        forall|k: int, i: int|
            0 <= k < dataset_writes(target, reads, reads.len() as int).len() && 0 <= i < reads.len()
                && (#[trigger] dataset_writes(target, reads, reads.len() as int)[k]).key
                == #[trigger] dataset_option_table()[i].1 ==> dataset_writes(
                target,
                reads,
                reads.len() as int,
            )[k].value == reads[i].value.unwrap() && reads[i].value is Some && reads[i].is_string,
        forall|k: int|
            0 <= k < dataset_writes(target, reads, reads.len() as int).len() ==> (#[trigger] dataset_writes(
                target,
                reads,
                reads.len() as int,
            )[k]).target == target,
{
    let n = reads.len() as int;
    lemma_option_names_distinct();
    lemma_copied_attributes(target, reads, n);
    let w = dataset_writes(target, reads, n);
    assert forall|i: int| 0 <= i < n implies (writes_option(w, #[trigger] dataset_option_table()[i].1) <==> (
    reads[i].value is Some && reads[i].is_string)) by {
        if reads[i].value is Some && reads[i].is_string {
            assert(string_read(reads, i));
        }
        if writes_option(w, dataset_option_table()[i].1) {
            let k = choose|k: int| 0 <= k < w.len() && (#[trigger] w[k]).key == dataset_option_table()[i].1;
            assert(string_read(reads, i));
        }
    }
}

/// Reads data attribute `key` of `dataset`: its value when the read succeeds, and
/// whether that value is a string.
fn read_attribute(dataset: &JsValue, key: &str) -> (r: (Option<JsValue>, bool, Ghost<AttributeRead>))
    ensures
        attribute_read_recorded(r.2@, *dataset, key@),
        r.2@.value == r.0,
        r.2@.is_string == r.1,
        r.0 is None ==> !r.1,
{
    let (value, Ghost(property)) = get_property(dataset, key);
    match value {
        Some(v) => {
            let (is_string, Ghost(check)) = check_string(&v);
            let ghost read = AttributeRead {
                source: *dataset,
                key: key@,
                value: Some(v),
                is_string,
                property,
                check: Some(check),
            };
            (Some(v), is_string, Ghost(read))
        },
        None => {
            let ghost read = AttributeRead {
                source: *dataset,
                key: key@,
                value: None,
                is_string: false,
                property,
                check: None,
            };
            (None, false, Ghost(read))
        },
    }
}

/// Sets option `key` of `opts` to `value`.
fn set_option(opts: &JsValue, key: &str, value: &JsValue) -> (w: Ghost<OptionWrite>)
    ensures
        w@ == (OptionWrite { target: *opts, key: key@, value: *value }),
{
    let _ = reflect_set(opts, &js_string(key), value);
    Ghost(OptionWrite { target: *opts, key: key@, value: *value })
}

/// The options object built from an element's `dataset`: each data attribute of
/// `dataset_option_table` is read in order, and the option it names is set to the
/// value read exactly when the read succeeded and gave a string; nothing else is
/// set. The report beside it records the reads and the options set.
pub fn options_from_dataset(dataset: &JsValue) -> (r: (JsValue, Ghost<(Seq<AttributeRead>, Seq<OptionWrite>)>))
    ensures
        r.1@.0.len() == dataset_option_table().len(),
        forall|i: int|
            0 <= i < r.1@.0.len() ==> (#[trigger] r.1@.0[i]).key == dataset_option_table()[i].0
                && r.1@.0[i].source == *dataset
                && (r.1@.0[i].value is None ==> !r.1@.0[i].is_string)
                && attribute_read_recorded(r.1@.0[i], *dataset, dataset_option_table()[i].0),
        r.1@.1 == dataset_writes(r.0, r.1@.0, dataset_option_table().len() as int),
{
    let opts = js_new_object();
    let keys = dataset_option_keys();
    let ghost mut reads: Seq<AttributeRead> = Seq::empty();
    let ghost mut writes: Seq<OptionWrite> = Seq::empty();
    let mut i: usize = 0;
    while i < keys.len()
        invariant
            i <= keys@.len(),
            keys@.len() == dataset_option_table().len(),
            forall|k: int|
                0 <= k < keys@.len() ==> (#[trigger] keys@[k].0@, keys@[k].1@) == dataset_option_table()[k],
            reads.len() == i,
            forall|j: int|
                0 <= j < i ==> (#[trigger] reads[j]).key == dataset_option_table()[j].0
                    && reads[j].source == *dataset
                    && (reads[j].value is None ==> !reads[j].is_string)
                    && attribute_read_recorded(reads[j], *dataset, dataset_option_table()[j].0),
            writes == dataset_writes(opts, reads, i as int),
        decreases keys@.len() - i,
    {
        let (data_key, opt_key) = keys[i];
        assert((keys@[i as int].0@, keys@[i as int].1@) == dataset_option_table()[i as int]);
        let (value, is_string, Ghost(read)) = read_attribute(dataset, data_key);
        let ghost old_reads = reads;
        proof {
            reads = reads.push(read);
            lemma_writes_depend_on_prefix(opts, old_reads, reads, i as int);
        }
        if let Some(v) = value {
            if is_string {
                let Ghost(w) = set_option(&opts, opt_key, &v);
                proof {
                    writes = writes.push(w);
                }
            }
        }
        i = i + 1;
    }
    (opts, Ghost((reads, writes)))
}

/// Whether two texts are the same.
pub fn same_text(a: &str, b: &str) -> (r: bool)
    ensures
        r == (a@ == b@),
{
    let x = a.as_bytes();
    let y = b.as_bytes();
    if x.len() != y.len() {
        return false;
    }
    let mut i: usize = 0;
    while i < x.len()
        invariant
            x@ == a.spec_bytes(),
            y@ == b.spec_bytes(),
            x@.len() == y@.len(),
            i <= x@.len(),
            forall|j: int| 0 <= j < i ==> x@[j] == y@[j],
        decreases x@.len() - i,
    {
        if x[i] != y[i] {
            return false;
        }
        i = i + 1;
    }
    assert(a.spec_bytes() =~= b.spec_bytes());
    assert(vstd::utf8::decode_utf8(vstd::utf8::encode_utf8(a@)) == a@);
    assert(vstd::utf8::decode_utf8(vstd::utf8::encode_utf8(b@)) == b@);
    true
}

/// The computed `background-color` of an element that has no background of its own.
pub open spec fn transparent_background() -> Seq<char> {
    "rgba(0, 0, 0, 0)"@
}

/// Whether the element's computed background is fully transparent, in which case
/// the glass gets a faint fill of its tint.
pub fn needs_tint_fill(computed_background: &str) -> (r: bool)
    ensures
        r == (computed_background@ == transparent_background()),
{
    same_text(computed_background, "rgba(0, 0, 0, 0)")
}

/// The error given when no element matches the selector.
pub open spec fn element_not_found_message(selector: Seq<char>) -> Seq<char> {
    "liquid-glass: элемент \""@ + selector + "\" не найден"@
}

/// Builds the error given when no element matches `selector`.
pub fn element_not_found(selector: &str) -> (msg: String)
    ensures
        msg@ == element_not_found_message(selector@),
{
    let mut msg = "liquid-glass: элемент \"".to_owned();
    msg.append(selector);
    msg.append("\" не найден");
    msg
}

} // verus!
