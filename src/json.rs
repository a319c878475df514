use vstd::prelude::*;

use crate::settings::{ImagePaths, Settings, SettingsView, WindowPosition, WindowSize};

verus! {

/// A JSON value as the settings file holds it.
///
/// A number is `Int` when it is written as an integer that fits in an `i64`;
/// any other number is `Single`, narrowed to single precision and held as
/// its IEEE-754 bit pattern. A number read from text also carries, in `Int`,
/// the bit pattern of its single-precision narrowing, so that it can stand
/// where a fractional number is expected; a number the library writes leaves
/// it out. An object keeps its members in order.
#[derive(Debug)]
pub enum JsonValue {
    Null,
    Bool(bool),
    Int(i64, Option<u32>),
    Single(u32),
    Str(String),
    Array(Vec<JsonValue>),
    Object(Vec<(String, JsonValue)>),
}

/// The value of the first member named `key`, if any.
pub open spec fn lookup(entries: Seq<(String, JsonValue)>, key: Seq<char>) -> Option<JsonValue>
    decreases entries.len(),
{
    if entries.len() == 0 {
        None
    } else if entries[0].0@ == key {
        Some(entries[0].1)
    } else {
        lookup(entries.drop_first(), key)
    }
}

/// Some two members of the object are both named `key`.
pub open spec fn repeated(entries: Seq<(String, JsonValue)>, key: Seq<char>) -> bool {
    exists|a: int, b: int|
        0 <= a < b < entries.len() && #[trigger] entries[a].0@ == key && #[trigger] entries[b].0@
            == key
}

/// The value of the member named `key`, when exactly one member has that name.
pub open spec fn member(entries: Seq<(String, JsonValue)>, key: Seq<char>) -> Option<JsonValue> {
    if repeated(entries, key) {
        None
    } else {
        lookup(entries, key)
    }
}

pub open spec fn int_member(entries: Seq<(String, JsonValue)>, key: Seq<char>) -> Option<i32> {
    match member(entries, key) {
        Some(JsonValue::Int(n, _)) => if i32::MIN <= n <= i32::MAX {
            Some(n as i32)
        } else {
            None
        },
        _ => None,
    }
}

pub open spec fn single_member(entries: Seq<(String, JsonValue)>, key: Seq<char>) -> Option<u32> {
    match member(entries, key) {
        Some(JsonValue::Single(b)) => Some(b),
        Some(JsonValue::Int(_, Some(b))) => Some(b),
        _ => None,
    }
}

pub open spec fn bool_member(entries: Seq<(String, JsonValue)>, key: Seq<char>) -> Option<bool> {
    match member(entries, key) {
        Some(JsonValue::Bool(b)) => Some(b),
        _ => None,
    }
}

pub open spec fn str_member(entries: Seq<(String, JsonValue)>, key: Seq<char>) -> Option<Seq<char>> {
    match member(entries, key) {
        Some(JsonValue::Str(s)) => Some(s@),
        _ => None,
    }
}

pub open spec fn object_member(entries: Seq<(String, JsonValue)>, key: Seq<char>) -> Option<
    Seq<(String, JsonValue)>,
> {
    match member(entries, key) {
        Some(JsonValue::Object(e)) => Some(e@),
        _ => None,
    }
}

/// The settings a document describes, or `None` when a member is missing or
/// of the wrong kind, or named twice in its object. The opacity may be any number. Members not named here
/// are ignored.
pub open spec fn decode_settings(v: JsonValue) -> Option<SettingsView> {
    match v {
        JsonValue::Object(top) => {
            let t = top@;
            let pos = object_member(t, "windowPosition"@);
            let size = object_member(t, "windowSize"@);
            let images = object_member(t, "images"@);
            if pos is Some && size is Some && images is Some {
                let p = pos.unwrap();
                let s = size.unwrap();
                let i = images.unwrap();
                if int_member(p, "x"@) is Some && int_member(p, "y"@) is Some && int_member(
                    s,
                    "width"@,
                ) is Some && int_member(s, "height"@) is Some && int_member(
                    t,
                    "animationSpeed"@,
                ) is Some && str_member(i, "typing1"@) is Some && str_member(i, "typing2"@) is Some
                    && str_member(i, "idle"@) is Some && single_member(t, "opacity"@) is Some
                    && bool_member(t, "alwaysOnTop"@) is Some {
                    Some(
                        SettingsView {
                            x: int_member(p, "x"@).unwrap(),
                            y: int_member(p, "y"@).unwrap(),
                            width: int_member(s, "width"@).unwrap(),
                            height: int_member(s, "height"@).unwrap(),
                            animation_speed: int_member(t, "animationSpeed"@).unwrap(),
                            typing1: str_member(i, "typing1"@).unwrap(),
                            typing2: str_member(i, "typing2"@).unwrap(),
                            idle: str_member(i, "idle"@).unwrap(),
                            opacity_bits: single_member(t, "opacity"@).unwrap(),
                            always_on_top: bool_member(t, "alwaysOnTop"@).unwrap(),
                        },
                    )
                } else {
                    None
                }
            } else {
                None
            }
        },
        _ => None,
    }
}

fn find<'a>(entries: &'a Vec<(String, JsonValue)>, key: &str) -> (r: Option<&'a JsonValue>)
    ensures
        r is Some <==> member(entries@, key@) is Some,
        r is Some ==> *r.unwrap() == member(entries@, key@).unwrap(),
{
    let k = String::from_str(key);
    let mut found: Option<&JsonValue> = None;
    let mut i: usize = 0;
    assert(entries@.subrange(0, entries@.len() as int) =~= entries@);
    while i < entries.len()
        invariant
            0 <= i <= entries.len(),
            k@ == key@,
            found is None <==> forall|a: int| 0 <= a < i ==> #[trigger] entries@[a].0@ != key@,
            found is None ==> lookup(entries@, key@) == lookup(
                entries@.subrange(i as int, entries@.len() as int),
                key@,
            ),
            found is Some ==> lookup(entries@, key@) == Some(*found.unwrap()),
            forall|a: int, b: int|
                0 <= a < b < i ==> !(#[trigger] entries@[a].0@ == key@ && #[trigger] entries@[b].0@
                    == key@),
        decreases entries.len() - i,
    {
        let ghost rest = entries@.subrange(i as int, entries@.len() as int);
        assert(rest.drop_first() =~= entries@.subrange(i + 1, entries@.len() as int));
        if entries[i].0 == k {
            if found.is_some() {
                let ghost a = choose|a: int| 0 <= a < i && entries@[a].0@ == key@;
                assert(entries@[a].0@ == key@ && entries@[i as int].0@ == key@);
                assert(repeated(entries@, key@));
                return None;
            }
            found = Some(&entries[i].1);
        }
        i = i + 1;
    }
    found
}

fn int_at(entries: &Vec<(String, JsonValue)>, key: &str) -> (r: Option<i32>)
    ensures
        r == int_member(entries@, key@),
{
    match find(entries, key) {
        Some(JsonValue::Int(n, _)) => if i32::MIN as i64 <= *n && *n <= i32::MAX as i64 {
            Some(*n as i32)
        } else {
            None
        },
        _ => None,
    }
}

fn single_at(entries: &Vec<(String, JsonValue)>, key: &str) -> (r: Option<u32>)
    ensures
        r == single_member(entries@, key@),
{
    match find(entries, key) {
        Some(JsonValue::Single(b)) => Some(*b),
        Some(JsonValue::Int(_, Some(b))) => Some(*b),
        _ => None,
    }
}

fn bool_at(entries: &Vec<(String, JsonValue)>, key: &str) -> (r: Option<bool>)
    ensures
        r == bool_member(entries@, key@),
{
    match find(entries, key) {
        Some(JsonValue::Bool(b)) => Some(*b),
        _ => None,
    }
}

fn str_at(entries: &Vec<(String, JsonValue)>, key: &str) -> (r: Option<String>)
    ensures
        r is Some <==> str_member(entries@, key@) is Some,
        r is Some ==> r.unwrap()@ == str_member(entries@, key@).unwrap(),
{
    match find(entries, key) {
        Some(JsonValue::Str(s)) => Some(s.clone()),
        _ => None,
    }
}

fn object_at<'a>(entries: &'a Vec<(String, JsonValue)>, key: &str) -> (r: Option<
    &'a Vec<(String, JsonValue)>,
>)
    ensures
        r is Some <==> object_member(entries@, key@) is Some,
        r is Some ==> r.unwrap()@ == object_member(entries@, key@).unwrap(),
{
    match find(entries, key) {
        Some(JsonValue::Object(e)) => Some(e),
        _ => None,
    }
}

fn member_error(key: &str) -> (r: String)
    ensures
        r@ == "missing or mistyped member `"@ + key@ + "`"@,
{
    String::from_str("missing or mistyped member `").concat(key).concat("`")
}

/// Reads settings out of a parsed settings document.
///
/// Succeeds exactly when every member that the record needs is present with
/// the right kind: integers within `i32`, and for the opacity any number.
pub fn from_json(v: &JsonValue) -> (r: Result<Settings, String>)
    ensures
        r is Ok <==> decode_settings(*v) is Some,
        r is Ok ==> r->Ok_0@ == decode_settings(*v).unwrap(),
{
    let top = match v {
        JsonValue::Object(e) => e,
        _ => return Err(String::from_str("settings document is not an object")),
    };
    let pos = match object_at(top, "windowPosition") {
        Some(p) => p,
        None => return Err(member_error("windowPosition")),
    };
    let size = match object_at(top, "windowSize") {
        Some(p) => p,
        None => return Err(member_error("windowSize")),
    };
    let images = match object_at(top, "images") {
        Some(p) => p,
        None => return Err(member_error("images")),
    };
    let x = match int_at(pos, "x") {
        Some(n) => n,
        None => return Err(member_error("x")),
    };
    let y = match int_at(pos, "y") {
        Some(n) => n,
        None => return Err(member_error("y")),
    };
    let width = match int_at(size, "width") {
        Some(n) => n,
        None => return Err(member_error("width")),
    };
    let height = match int_at(size, "height") {
        Some(n) => n,
        None => return Err(member_error("height")),
    };
    let animation_speed = match int_at(top, "animationSpeed") {
        Some(n) => n,
        None => return Err(member_error("animationSpeed")),
    };
    let typing1 = match str_at(images, "typing1") {
        Some(t) => t,
        None => return Err(member_error("typing1")),
    };
    let typing2 = match str_at(images, "typing2") {
        Some(t) => t,
        None => return Err(member_error("typing2")),
    };
    let idle = match str_at(images, "idle") {
        Some(t) => t,
        None => return Err(member_error("idle")),
    };
    let opacity_bits = match single_at(top, "opacity") {
        Some(b) => b,
        None => return Err(member_error("opacity")),
    };
    let always_on_top = match bool_at(top, "alwaysOnTop") {
        Some(b) => b,
        None => return Err(member_error("alwaysOnTop")),
    };
    Ok(
        Settings {
            window_position: WindowPosition { x, y },
            window_size: WindowSize { width, height },
            animation_speed,
            images: ImagePaths { typing1, typing2, idle },
            opacity_bits,
            always_on_top,
        },
    )
}

pub open spec fn int_entry(e: (String, JsonValue), key: Seq<char>, n: i32) -> bool {
    e.0@ == key && e.1 == JsonValue::Int(n as i64, None)
}

pub open spec fn str_entry(e: (String, JsonValue), key: Seq<char>, s: Seq<char>) -> bool {
    e.0@ == key && e.1 is Str && e.1->Str_0@ == s
}

/// The member names of a document's top-level object, in order.
pub open spec fn top_keys(v: JsonValue) -> Seq<Seq<char>> {
    match v {
        JsonValue::Object(top) => top@.map_values(|e: (String, JsonValue)| e.0@),
        _ => Seq::empty(),
    }
}

/// The member names a settings document carries, in the order they are written.
pub open spec fn settings_keys() -> Seq<Seq<char>> {
    seq![
        "windowPosition"@,
        "windowSize"@,
        "animationSpeed"@,
        "images"@,
        "opacity"@,
        "alwaysOnTop"@,
    ]
}

/// `v` is the document written for `m`: one object with the six camelCase
/// members in order, the position, size and images as nested objects.
pub open spec fn is_settings_document(v: JsonValue, m: SettingsView) -> bool {
    &&& v is Object
    &&& top_keys(v) == settings_keys()
    &&& {
        let t = v->Object_0@;
        &&& t[0].1 is Object
        &&& t[0].1->Object_0@.len() == 2
        &&& int_entry(t[0].1->Object_0@[0], "x"@, m.x)
        &&& int_entry(t[0].1->Object_0@[1], "y"@, m.y)
        &&& t[1].1 is Object
        &&& t[1].1->Object_0@.len() == 2
        &&& int_entry(t[1].1->Object_0@[0], "width"@, m.width)
        &&& int_entry(t[1].1->Object_0@[1], "height"@, m.height)
        &&& t[2].1 == JsonValue::Int(m.animation_speed as i64, None)
        &&& t[3].1 is Object
        &&& t[3].1->Object_0@.len() == 3
        &&& str_entry(t[3].1->Object_0@[0], "typing1"@, m.typing1)
        &&& str_entry(t[3].1->Object_0@[1], "typing2"@, m.typing2)
        &&& str_entry(t[3].1->Object_0@[2], "idle"@, m.idle)
        &&& t[4].1 == JsonValue::Single(m.opacity_bits)
        &&& t[5].1 == JsonValue::Bool(m.always_on_top)
    }
}

fn entry(key: &str, value: JsonValue) -> (r: (String, JsonValue))
    ensures
        r.0@ == key@,
        r.1 == value,
{
    (String::from_str(key), value)
}

/// Writes settings as a settings document.
pub fn to_json(s: &Settings) -> (r: JsonValue)
    ensures
        is_settings_document(r, s@),
{
    let mut pos: Vec<(String, JsonValue)> = Vec::new();
    pos.push(entry("x", JsonValue::Int(s.window_position.x as i64, None)));
    pos.push(entry("y", JsonValue::Int(s.window_position.y as i64, None)));
    let mut size: Vec<(String, JsonValue)> = Vec::new();
    size.push(entry("width", JsonValue::Int(s.window_size.width as i64, None)));
    size.push(entry("height", JsonValue::Int(s.window_size.height as i64, None)));
    let mut images: Vec<(String, JsonValue)> = Vec::new();
    images.push(entry("typing1", JsonValue::Str(s.images.typing1.clone())));
    images.push(entry("typing2", JsonValue::Str(s.images.typing2.clone())));
    images.push(entry("idle", JsonValue::Str(s.images.idle.clone())));
    let mut top: Vec<(String, JsonValue)> = Vec::new();
    top.push(entry("windowPosition", JsonValue::Object(pos)));
    top.push(entry("windowSize", JsonValue::Object(size)));
    top.push(entry("animationSpeed", JsonValue::Int(s.animation_speed as i64, None)));
    top.push(entry("images", JsonValue::Object(images)));
    top.push(entry("opacity", JsonValue::Single(s.opacity_bits)));
    top.push(entry("alwaysOnTop", JsonValue::Bool(s.always_on_top)));
    let r = JsonValue::Object(top);
    assert(top_keys(r) =~= settings_keys());
    r
}

proof fn lemma_lookup_at(entries: Seq<(String, JsonValue)>, k: int, key: Seq<char>)
    requires
        0 <= k < entries.len(),
        entries[k].0@ == key,
        forall|j: int| 0 <= j < k ==> entries[j].0@ != key,
    ensures
        lookup(entries, key) == Some(entries[k].1),
    decreases k,
{
    if k > 0 {
        let rest = entries.drop_first();
        assert forall|j: int| 0 <= j < k - 1 implies rest[j].0@ != key by {
            assert(rest[j] == entries[j + 1]);
        }
        lemma_lookup_at(rest, k - 1, key);
    }
}

proof fn lemma_member_at(entries: Seq<(String, JsonValue)>, k: int, key: Seq<char>)
    requires
        0 <= k < entries.len(),
        entries[k].0@ == key,
        forall|j: int| 0 <= j < entries.len() && j != k ==> entries[j].0@ != key,
    ensures
        member(entries, key) == Some(entries[k].1),
{
    lemma_lookup_at(entries, k, key);
}

/// Reading back the document written for any settings gives those settings,
/// field for field.
pub proof fn lemma_round_trip(v: JsonValue, m: SettingsView)
    requires
        is_settings_document(v, m),
    ensures
        decode_settings(v) == Some(m),
{
    reveal_strlit("windowPosition");
    reveal_strlit("windowSize");
    reveal_strlit("animationSpeed");
    reveal_strlit("images");
    reveal_strlit("opacity");
    reveal_strlit("alwaysOnTop");
    reveal_strlit("x");
    reveal_strlit("y");
    reveal_strlit("width");
    reveal_strlit("height");
    reveal_strlit("typing1");
    reveal_strlit("typing2");
    reveal_strlit("idle");
    let t = v->Object_0@;
    assert(top_keys(v).len() == 6);
    assert(t[0].0@ == top_keys(v)[0]);
    assert(t[1].0@ == top_keys(v)[1]);
    assert(t[2].0@ == top_keys(v)[2]);
    assert(t[3].0@ == top_keys(v)[3]);
    assert(t[4].0@ == top_keys(v)[4]);
    assert(t[5].0@ == top_keys(v)[5]);
    let p = t[0].1->Object_0@;
    let z = t[1].1->Object_0@;
    let i = t[3].1->Object_0@;
    assert("windowPosition"@ != "animationSpeed"@) by {
        assert("windowPosition"@[0] != "animationSpeed"@[0]);
    }
    assert("images"@.len() == 6 && "windowPosition"@.len() == 14 && "windowSize"@.len() == 10
        && "animationSpeed"@.len() == 14);
    assert("opacity"@.len() == 7 && "alwaysOnTop"@.len() == 11);
    assert("x"@[0] != "y"@[0] && "typing1"@[6] != "typing2"@[6] && "idle"@.len() == 4
        && "typing1"@.len() == 7 && "width"@.len() == 5 && "height"@.len() == 6);
    lemma_member_at(t, 0, "windowPosition"@);
    lemma_member_at(t, 1, "windowSize"@);
    lemma_member_at(t, 2, "animationSpeed"@);
    lemma_member_at(t, 3, "images"@);
    lemma_member_at(t, 4, "opacity"@);
    lemma_member_at(t, 5, "alwaysOnTop"@);
    lemma_member_at(p, 0, "x"@);
    lemma_member_at(p, 1, "y"@);
    lemma_member_at(z, 0, "width"@);
    lemma_member_at(z, 1, "height"@);
    lemma_member_at(i, 0, "typing1"@);
    lemma_member_at(i, 1, "typing2"@);
    lemma_member_at(i, 2, "idle"@);
    assert(decode_settings(v) =~= Some(m));
}

/// A settings document is keyed by the camelCase names, never by the
/// record's own field names.
pub proof fn lemma_camel_case_keys(v: JsonValue, m: SettingsView)
    requires
        is_settings_document(v, m),
    ensures
        top_keys(v).contains("windowPosition"@),
        top_keys(v).contains("windowSize"@),
        top_keys(v).contains("animationSpeed"@),
        top_keys(v).contains("alwaysOnTop"@),
        !top_keys(v).contains("window_position"@),
        !top_keys(v).contains("window_size"@),
        !top_keys(v).contains("animation_speed"@),
        !top_keys(v).contains("always_on_top"@),
{
    reveal_strlit("windowPosition");
    reveal_strlit("windowSize");
    reveal_strlit("animationSpeed");
    reveal_strlit("images");
    reveal_strlit("opacity");
    reveal_strlit("alwaysOnTop");
    reveal_strlit("window_position");
    reveal_strlit("window_size");
    reveal_strlit("animation_speed");
    reveal_strlit("always_on_top");
    let k = top_keys(v);
    assert(k[0] == "windowPosition"@);
    assert(k[1] == "windowSize"@);
    assert(k[2] == "animationSpeed"@);
    assert(k[5] == "alwaysOnTop"@);
    assert forall|i: int| 0 <= i < k.len() implies k[i] != "window_position"@ && k[i]
        != "window_size"@ && k[i] != "animation_speed"@ && k[i] != "always_on_top"@ by {
        assert(k[i][0] != '_');
        assert(k[i].len() <= 14);
        assert(k[i].len() == 11 ==> k[i][0] == 'a');
    }
}

} // verus!
