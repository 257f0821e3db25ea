//! Header fields on their way from the page to the target and back.
//!
//! The server side and the client side keep header fields in maps of their own,
//! with slightly different ideas of what a field may be called. What a map
//! holds is told here by the sequence of its fields: the values of one name
//! stand next to each other, in the order in which they were added, and the
//! names in the order in which the map walks them. A map can hold more than can
//! be written into one from bytes: a name that was put in as a static text is not
//! looked at closely when it is long.

use vstd::prelude::*;

use warp::http::Error as HttpError;

use crate::error::Error;

verus! {

/// The name and the value of a field.
pub type FieldView = (Seq<char>, Seq<u8>);

/// A header field, with its name in lower case.
#[derive(Debug, PartialEq, Eq)]
pub struct Field {
    pub name: String,
    pub value: Vec<u8>,
}

impl View for Field {
    type V = FieldView;

    open spec fn view(&self) -> FieldView {
        (self.name@, self.value@)
    }
}

pub open spec fn field_views(fields: Seq<Field>) -> Seq<FieldView> {
    fields.map_values(|field: Field| field@)
}

/// The bytes that names of methods and header fields are made of: letters,
/// digits and ``!#$%&'*+-.^_`|~``.
pub open spec fn token_byte(b: u8) -> bool {
    ||| 0x30 <= b <= 0x39
    ||| 0x41 <= b <= 0x5a
    ||| 0x61 <= b <= 0x7a
    ||| b == 0x21
    ||| 0x23 <= b <= 0x27
    ||| b == 0x2a
    ||| b == 0x2b
    ||| b == 0x2d
    ||| b == 0x2e
    ||| 0x5e <= b <= 0x60
    ||| b == 0x7c
    ||| b == 0x7e
}

pub open spec fn token_char(c: char) -> bool {
    (c as u32) < 128 && token_byte(c as u8)
}

/// What `HeaderName::from_bytes` takes for the name of a field on the client side.
pub open spec fn client_name(name: Seq<char>) -> bool {
    1 <= name.len() <= 65535 && forall|i: int| 0 <= i < name.len() ==> token_char(#[trigger] name[i])
}

/// What `HeaderName::from_bytes` takes for the name of a field on the server side:
/// the quotation mark comes on top of `client_name`.
pub open spec fn field_name(name: Seq<char>) -> bool {
    1 <= name.len() <= 65535 && forall|i: int|
        0 <= i < name.len() ==> token_char(#[trigger] name[i]) || name[i] == '"'
}

/// What `HeaderValue::from_bytes` takes for the value of a field on either side:
/// no control characters but the tabulator.
pub open spec fn field_value(value: Seq<u8>) -> bool {
    forall|i: int|
        0 <= i < value.len() ==> (#[trigger] value[i] >= 32 && value[i] != 127 || value[i] == 9)
}

pub open spec fn upper_case(c: char) -> bool {
    0x41 <= c as u32 <= 0x5a
}

/// The letter `c` in lower case; any other character is itself.
pub open spec fn lower(c: char) -> char {
    if upper_case(c) {
        (c as u32 + 32) as char
    } else {
        c
    }
}

pub open spec fn lowered(name: Seq<char>) -> Seq<char> {
    name.map_values(|c: char| lower(c))
}

pub open spec fn in_lower_case(name: Seq<char>) -> bool {
    forall|i: int| 0 <= i < name.len() ==> !upper_case(#[trigger] name[i])
}

/// True when the values of one name stand next to each other.
pub open spec fn grouped(fields: Seq<FieldView>) -> bool {
    forall|i: int, j: int, k: int|
        0 <= i <= j <= k < fields.len() && (#[trigger] fields[i]).0 == (#[trigger] fields[k]).0 ==> (
        #[trigger] fields[j]).0 == fields[i].0
}

/// True when some field has the name.
pub open spec fn mentions(fields: Seq<FieldView>, name: Seq<char>) -> bool {
    exists|i: int| 0 <= i < fields.len() && (#[trigger] fields[i]).0 == name
}

/// `fields` with one more: behind the last field of the same name, and at the
/// end where there is none.
pub open spec fn appended(fields: Seq<FieldView>, name: Seq<char>, value: Seq<u8>) -> Seq<FieldView>
    decreases fields.len(),
{
    if fields.len() == 0 || !mentions(fields, name) || fields.last().0 == name {
        fields.push((name, value))
    } else {
        appended(fields.drop_last(), name, value).push(fields.last())
    }
}

/// The different names among the fields.
pub open spec fn names(fields: Seq<FieldView>) -> Set<Seq<char>> {
    fields.map_values(|field: FieldView| field.0).to_set()
}

/// So many names fit into a map whatever they are.
///
/// A map finds its names through a table of at most 32768 slots, which doubles
/// when the names collide too often and a fifth of it is taken. A table that
/// cannot double any more turns the next field down, so beyond a fifth of its
/// largest size it depends on the names whether there is room, and on the machine,
/// whose word size goes into the hashes.
pub const MAX_NAMES: usize = 6553;

/// The largest number of fields that room can be asked for in advance: three
/// quarters of the slots of the largest table.
pub const MAX_FIELDS: usize = 24576;

#[verifier::external_type_specification]
#[verifier::external_body]
#[verifier::reject_recursive_types(T)]
pub struct ExServerHeaders<T>(warp::http::HeaderMap<T>);

#[verifier::external_type_specification]
#[verifier::external_body]
pub struct ExServerHeaderValue(warp::http::HeaderValue);

#[verifier::external_type_specification]
#[verifier::external_body]
#[verifier::reject_recursive_types(T)]
pub struct ExClientHeaders<T>(reqwest::header::HeaderMap<T>);

#[verifier::external_type_specification]
#[verifier::external_body]
pub struct ExClientHeaderValue(reqwest::header::HeaderValue);

/// The fields in a map of the server side.
pub uninterp spec fn server_fields(headers: warp::http::HeaderMap) -> Seq<FieldView>;

/// The fields in a map of the client side.
pub uninterp spec fn client_fields(headers: reqwest::header::HeaderMap) -> Seq<FieldView>;

/// Walks a `warp::http::HeaderMap` with `iter`. No name in it has a capital
/// letter, and nothing more is said of what names and values are made of.
#[verifier::external_body]
fn server_items(headers: &warp::http::HeaderMap) -> (items: Vec<Field>)
    ensures
        field_views(items@) == server_fields(*headers),
        grouped(field_views(items@)),
        forall|i: int| 0 <= i < items@.len() ==> in_lower_case((#[trigger] items@[i])@.0),
{
    headers
        .iter()
        .map(|(name, value)| Field { name: name.as_str().to_owned(), value: value.as_bytes().to_vec() })
        .collect()
}

/// Walks a `reqwest::header::HeaderMap` with `iter`. No name in it has a capital
/// letter, and nothing more is said of what names and values are made of.
#[verifier::external_body]
fn client_items(headers: &reqwest::header::HeaderMap) -> (items: Vec<Field>)
    ensures
        field_views(items@) == client_fields(*headers),
        grouped(field_views(items@)),
        forall|i: int| 0 <= i < items@.len() ==> in_lower_case((#[trigger] items@[i])@.0),
{
    headers
        .iter()
        .map(|(name, value)| Field { name: name.as_str().to_owned(), value: value.as_bytes().to_vec() })
        .collect()
}

/// Calls `reqwest::header::HeaderName::from_bytes`, which takes the names that
/// `client_name` describes and puts them into lower case.
#[verifier::external_body]
fn parse_client_name(name: &str) -> (parsed: Option<String>)
    ensures
        match parsed {
            Some(text) => client_name(name@) && text@ == lowered(name@),
            None => !client_name(name@),
        },
{
    let parsed = reqwest::header::HeaderName::from_bytes(name.as_bytes()).ok()?;
    Some(parsed.as_str().to_owned())
}

/// Calls `reqwest::header::HeaderValue::from_bytes`, which takes the values
/// that `field_value` describes and leaves them as they are.
#[verifier::external_body]
fn parse_client_value(value: &[u8]) -> (parsed: Option<Vec<u8>>)
    ensures
        match parsed {
            Some(bytes) => field_value(value@) && bytes@ == value@,
            None => !field_value(value@),
        },
{
    let parsed = reqwest::header::HeaderValue::from_bytes(value).ok()?;
    Some(parsed.as_bytes().to_vec())
}

/// Calls `reqwest::header::HeaderMap::try_with_capacity`, which makes an empty
/// map or says that so much room cannot be had.
#[verifier::external_body]
fn new_client_headers(capacity: usize) -> (headers: Option<reqwest::header::HeaderMap>)
    ensures
        match headers {
            Some(map) => capacity <= MAX_FIELDS && client_fields(map) == Seq::<FieldView>::empty(),
            None => capacity > MAX_FIELDS,
        },
{
    reqwest::header::HeaderMap::try_with_capacity(capacity).ok()
}

/// Calls `reqwest::header::HeaderMap::try_append`, which adds a value behind the
/// others of its name or says that there is no room. Beyond [`MAX_NAMES`] names
/// nothing is said about which of the two it is.
#[verifier::external_body]
fn append_client_field(
    headers: &mut reqwest::header::HeaderMap,
    name: &str,
    value: &[u8],
) -> (added: bool)
    requires
        client_name(name@),
        field_value(value@),
    ensures
        added ==> client_fields(*final(headers)) == appended(
            client_fields(*old(headers)),
            lowered(name@),
            value@,
        ),
        !added ==> names(client_fields(*old(headers))).len() > MAX_NAMES,
{
    let name = reqwest::header::HeaderName::from_bytes(name.as_bytes()).unwrap();
    let value = reqwest::header::HeaderValue::from_bytes(value).unwrap();
    headers.try_append(name, value).is_ok()
}

/// Calls `warp::http::HeaderMap::new`, which makes an empty map.
#[verifier::external_body]
fn new_server_headers() -> (headers: warp::http::HeaderMap)
    ensures
        server_fields(headers) == Seq::<FieldView>::empty(),
{
    warp::http::HeaderMap::new()
}

/// Calls `warp::http::HeaderMap::try_append`, which adds a value behind the
/// others of its name or says that there is no room. Beyond [`MAX_NAMES`] names
/// nothing is said about which of the two it is. The name and the value are put
/// into the map's own types first, which can fail as well.
#[verifier::external_body]
fn append_server_field(
    headers: &mut warp::http::HeaderMap,
    name: &str,
    value: &[u8],
) -> (added: Result<(), HttpError>)
    ensures
        match added {
            Ok(_) => field_name(name@) && field_value(value@) && server_fields(*final(headers))
                == appended(server_fields(*old(headers)), lowered(name@), value@),
            Err(_) => !field_name(name@) || !field_value(value@) || names(
                server_fields(*old(headers)),
            ).len() > MAX_NAMES,
        },
{
    let name = warp::http::header::HeaderName::from_bytes(name.as_bytes())?;
    let value = warp::http::HeaderValue::from_bytes(value)?;
    headers.try_append(name, value)?;
    Ok(())
}

proof fn lower_case_stays(name: Seq<char>)
    requires
        in_lower_case(name),
    ensures
        lowered(name) == name,
{
    assert(lowered(name) =~= name);
}

proof fn names_of_some_are_among_all(some: Seq<FieldView>, all: Seq<FieldView>)
    requires
        forall|i: int| 0 <= i < some.len() ==> all.contains(#[trigger] some[i]),
    ensures
        names(some).len() <= names(all).len(),
{
    let some_names = some.map_values(|field: FieldView| field.0);
    let all_names = all.map_values(|field: FieldView| field.0);
    assert forall|name: Seq<char>| names(some).contains(name) implies names(all).contains(name) by {
        let i = choose|i: int| 0 <= i < some_names.len() && some_names[i] == name;
        let j = choose|j: int| 0 <= j < all.len() && all[j] == some[i];
        assert(all_names[j] == name);
    }
    vstd::seq_lib::seq_to_set_is_finite(all_names);
    vstd::set_lib::lemma_len_subset(names(some), names(all));
}

proof fn names_kept_so_far_are_kept(
    fields: Seq<FieldView>,
    count: int,
    keep: spec_fn(FieldView) -> bool,
)
    requires
        0 <= count <= fields.len(),
    ensures
        names(fields.take(count).filter(keep)).len() <= names(fields.filter(keep)).len(),
{
    let some = fields.take(count).filter(keep);
    let all = fields.filter(keep);
    assert forall|i: int| 0 <= i < some.len() implies all.contains(#[trigger] some[i]) by {
        assert(some.contains(some[i]));
        fields.take(count).lemma_filter_contains_rev(keep, some[i]);
        let j = choose|j: int| 0 <= j < count && fields.take(count)[j] == some[i];
        assert(fields[j] == some[i]);
        assert(keep(fields[j]));
    }
    names_of_some_are_among_all(some, all);
}

/// Among grouped fields, what was kept before a field either does not know its
/// name or ends with it.
proof fn kept_so_far_ends_with_the_name(
    fields: Seq<FieldView>,
    count: int,
    next: int,
    keep: spec_fn(FieldView) -> bool,
)
    requires
        grouped(fields),
        0 <= count <= next < fields.len(),
        mentions(fields.take(count).filter(keep), fields[next].0),
    ensures
        fields.take(count).filter(keep).last().0 == fields[next].0,
    decreases count,
{
    reveal(Seq::filter);
    let before = fields.take(count);
    let kept = before.filter(keep);
    let name = fields[next].0;
    let i = choose|i: int| 0 <= i < kept.len() && (#[trigger] kept[i]).0 == name;
    assert(count > 0);
    assert(before.drop_last() =~= fields.take(count - 1));
    assert(before.last() == fields[count - 1]);
    if keep(before.last()) {
        assert(kept.contains(kept[i]));
        before.lemma_filter_contains_rev(keep, kept[i]);
        let j = choose|j: int| 0 <= j < count && before[j] == kept[i];
        assert(fields[j].0 == fields[next].0);
        assert(fields[count - 1].0 == fields[j].0);
    } else {
        kept_so_far_ends_with_the_name(fields, count - 1, next, keep);
    }
}

/// Adding the kept fields one by one keeps their order.
proof fn next_kept_field_comes_last(
    fields: Seq<FieldView>,
    next: int,
    keep: spec_fn(FieldView) -> bool,
)
    requires
        grouped(fields),
        0 <= next < fields.len(),
    ensures
        fields.take(next + 1).filter(keep) == (if keep(fields[next]) {
            appended(fields.take(next).filter(keep), fields[next].0, fields[next].1)
        } else {
            fields.take(next).filter(keep)
        }),
{
    reveal(Seq::filter);
    let kept = fields.take(next).filter(keep);
    assert(fields.take(next + 1).drop_last() =~= fields.take(next));
    assert(fields.take(next + 1).last() == fields[next]);
    if keep(fields[next]) && mentions(kept, fields[next].0) {
        kept_so_far_ends_with_the_name(fields, next, next, keep);
    }
}

/// Adding grouped fields one by one keeps their order.
proof fn next_field_comes_last(fields: Seq<FieldView>, next: int)
    requires
        grouped(fields),
        0 <= next < fields.len(),
    ensures
        fields.take(next + 1) == appended(fields.take(next), fields[next].0, fields[next].1),
{
    let before = fields.take(next);
    assert(fields.take(next + 1) =~= before.push(fields[next]));
    if mentions(before, fields[next].0) {
        let i = choose|i: int| 0 <= i < before.len() && (#[trigger] before[i]).0 == fields[next].0;
        assert(fields[i].0 == fields[next].0);
        assert(fields[next - 1].0 == fields[i].0);
    }
}

/// Fields that are kept of grouped ones are grouped.
proof fn kept_fields_stay_grouped(fields: Seq<FieldView>, keep: spec_fn(FieldView) -> bool)
    requires
        grouped(fields),
    ensures
        grouped(fields.filter(keep)),
    decreases fields.len(),
{
    reveal(Seq::filter);
    if fields.len() > 0 {
        let rest = fields.drop_last();
        let kept = rest.filter(keep);
        assert(rest =~= fields.take(fields.len() - 1));
        assert(grouped(rest)) by {
            assert forall|i: int, j: int, k: int|
                0 <= i <= j <= k < rest.len() && (#[trigger] rest[i]).0 == (
                #[trigger] rest[k]).0 implies (#[trigger] rest[j]).0 == rest[i].0 by {
                assert(fields[i].0 == fields[k].0);
                assert(fields[j].0 == fields[i].0);
            }
        }
        kept_fields_stay_grouped(rest, keep);
        if keep(fields.last()) {
            let all = fields.filter(keep);
            assert(all =~= kept.push(fields.last()));
            assert forall|i: int, j: int, k: int|
                0 <= i <= j <= k < all.len() && (#[trigger] all[i]).0 == (
                #[trigger] all[k]).0 implies (#[trigger] all[j]).0 == all[i].0 by {
                if k < kept.len() {
                    assert(kept[i].0 == kept[k].0);
                    assert(kept[j].0 == kept[i].0);
                } else if i < kept.len() && j < kept.len() {
                    assert(mentions(kept, fields.last().0)) by {
                        assert(kept[i].0 == fields.last().0);
                    }
                    kept_so_far_ends_with_the_name(
                        fields,
                        fields.len() - 1,
                        fields.len() - 1,
                        keep,
                    );
                    assert(kept[kept.len() - 1].0 == kept[i].0);
                    assert(kept[j].0 == kept[i].0);
                }
            }
        }
    }
}

/// True when the client can send the field.
pub open spec fn sendable() -> spec_fn(FieldView) -> bool {
    |field: FieldView| client_name(field.0) && field_value(field.1)
}

/// What is left of the fields of a request when the client sends it.
pub open spec fn sent(fields: Seq<FieldView>) -> Seq<FieldView> {
    fields.filter(sendable())
}

/// True when the target's answer hands the field on to the page.
pub open spec fn relayable() -> spec_fn(FieldView) -> bool {
    |field: FieldView| field.0 != "set-cookie"@
}

/// What is left of the fields of an answer when the page gets it.
pub open spec fn relayed(fields: Seq<FieldView>) -> Seq<FieldView> {
    fields.filter(relayable())
}

/// True when the client has room for what it sends of the fields, whatever the
/// names are.
pub open spec fn fits(fields: Seq<FieldView>) -> bool {
    fields.len() <= MAX_FIELDS && names(sent(fields)).len() <= MAX_NAMES
}

/// True when the server takes all the fields from bytes.
pub open spec fn server_writable(fields: Seq<FieldView>) -> bool {
    forall|i: int|
        0 <= i < fields.len() ==> field_name((#[trigger] fields[i]).0) && field_value(fields[i].1)
}

proof fn names_with_one_more(fields: Seq<FieldView>, field: FieldView)
    ensures
        names(fields.push(field)).len() == names(fields).len() + (if mentions(fields, field.0) {
            0int
        } else {
            1int
        }),
{
    let before = fields.map_values(|field: FieldView| field.0);
    let after = fields.push(field).map_values(|field: FieldView| field.0);
    assert(after =~= before.push(field.0));
    vstd::seq_lib::seq_to_set_is_finite(before);
    assert(names(fields.push(field)) =~= names(fields).insert(field.0)) by {
        assert forall|name: Seq<char>| names(fields).insert(field.0).contains(
            name,
        ) implies after.to_set().contains(name) by {
            if name == field.0 {
                assert(after[before.len() as int] == name);
            } else {
                let i = choose|i: int| 0 <= i < before.len() && before[i] == name;
                assert(after[i] == name);
            }
        }
    }
    assert(names(fields).contains(field.0) == mentions(fields, field.0)) by {
        if mentions(fields, field.0) {
            let i = choose|i: int| 0 <= i < fields.len() && (#[trigger] fields[i]).0 == field.0;
            assert(before[i] == field.0);
        }
        if names(fields).contains(field.0) {
            let i = choose|i: int| 0 <= i < before.len() && before[i] == field.0;
            assert(fields[i].0 == field.0);
        }
    }
}

/// Counts the different names among the fields that the client sends.
fn sent_name_count(items: &Vec<Field>) -> (count: usize)
    requires
        grouped(field_views(items@)),
    ensures
        count == names(sent(field_views(items@))).len(),
{
    let ghost fields = field_views(items@);
    let mut count: usize = 0;
    let mut last: Option<String> = None;
    let mut next: usize = 0;
    proof {
        reveal(Seq::filter);
        assert(names(fields.take(0).filter(sendable())) =~= Set::<Seq<char>>::empty());
    }
    while next < items.len()
        invariant
            next <= items@.len(),
            fields == field_views(items@),
            grouped(fields),
            count <= next,
            count == names(fields.take(next as int).filter(sendable())).len(),
            match last {
                Some(name) => fields.take(next as int).filter(sendable()).len() > 0 && name@
                    == fields.take(next as int).filter(sendable()).last().0,
                None => fields.take(next as int).filter(sendable()).len() == 0,
            },
        decreases items@.len() - next,
    {
        let item = &items[next];
        let ghost kept = fields.take(next as int).filter(sendable());
        proof {
            reveal(Seq::filter);
            assert(fields[next as int] == item@);
            assert(fields.take(next + 1).drop_last() =~= fields.take(next as int));
            names_with_one_more(kept, item@);
            if mentions(kept, item@.0) {
                kept_so_far_ends_with_the_name(fields, next as int, next as int, sendable());
            }
        }
        match (parse_client_name(item.name.as_str()), parse_client_value(item.value.as_slice())) {
            (Some(_), Some(_)) => {
                let seen = match &last {
                    Some(last) => *last == item.name,
                    None => false,
                };
                assert(seen == mentions(kept, item@.0));
                if !seen {
                    count += 1;
                }
                last = Some(item.name.clone());
            },
            _ => {},
        }
        next += 1;
    }
    assert(fields.take(next as int) =~= fields);
    count
}

/// True when a request with these headers can be sent on whatever their names
/// are.
pub fn headers_fit(headers: &warp::http::HeaderMap) -> (yes: bool)
    ensures
        yes == fits(server_fields(*headers)),
{
    let items = server_items(headers);
    items.len() <= MAX_FIELDS && sent_name_count(&items) <= MAX_NAMES
}

/// Converts the headers of the server side into those of the client side. A
/// field that the client knows no way to write is left out.
///
/// Gives `None` where the client has no room for the headers: always beyond
/// [`MAX_FIELDS`] fields, and beyond [`MAX_NAMES`] names that are sent, where it
/// depends on the names.
pub fn try_to_reqwest_headers(headers: &warp::http::HeaderMap) -> (out: Option<
    reqwest::header::HeaderMap,
>)
    ensures
        match out {
            Some(map) => server_fields(*headers).len() <= MAX_FIELDS && client_fields(map) == sent(
                server_fields(*headers),
            ),
            None => !fits(server_fields(*headers)),
        },
{
    let items = server_items(headers);
    let ghost fields = server_fields(*headers);
    let mut out = match new_client_headers(items.len()) {
        Some(out) => out,
        None => {
            return None;
        },
    };
    let mut next: usize = 0;
    proof {
        reveal(Seq::filter);
    }
    while next < items.len()
        invariant
            next <= items@.len(),
            fields == field_views(items@),
            fields == server_fields(*headers),
            grouped(fields),
            forall|i: int| 0 <= i < items@.len() ==> in_lower_case((#[trigger] items@[i])@.0),
            client_fields(out) == fields.take(next as int).filter(sendable()),
        decreases items@.len() - next,
    {
        let item = &items[next];
        proof {
            assert(fields[next as int] == item@);
            next_kept_field_comes_last(fields, next as int, sendable());
            names_kept_so_far_are_kept(fields, next as int, sendable());
            lower_case_stays(item@.0);
        }
        match (parse_client_name(item.name.as_str()), parse_client_value(item.value.as_slice())) {
            (Some(name), Some(value)) => {
                if !append_client_field(&mut out, name.as_str(), value.as_slice()) {
                    return None;
                }
            },
            _ => {},
        }
        next += 1;
    }
    assert(fields.take(next as int) =~= fields);
    Some(out)
}

/// Converts headers that fit.
pub fn to_reqwest_headers(headers: &warp::http::HeaderMap) -> (out: reqwest::header::HeaderMap)
    requires
        fits(server_fields(*headers)),
    ensures
        client_fields(out) == sent(server_fields(*headers)),
{
    try_to_reqwest_headers(headers).expect("size overflows MAX_SIZE")
}

/// Reads off the headers of the client side what the page gets of them: all but
/// the cookies that the target would set.
pub fn relayed_fields(headers: &reqwest::header::HeaderMap) -> (out: Vec<Field>)
    ensures
        field_views(out@) == relayed(client_fields(*headers)),
        grouped(field_views(out@)),
        forall|i: int| 0 <= i < out@.len() ==> in_lower_case((#[trigger] out@[i])@.0),
{
    let items = client_items(headers);
    let ghost fields = client_fields(*headers);
    let set_cookie = "set-cookie".to_owned();
    let mut out: Vec<Field> = Vec::new();
    let mut next: usize = 0;
    proof {
        reveal(Seq::filter);
        assert(field_views(out@) =~= fields.take(0).filter(relayable()));
    }
    while next < items.len()
        invariant
            next <= items@.len(),
            fields == field_views(items@),
            forall|i: int| 0 <= i < items@.len() ==> in_lower_case((#[trigger] items@[i])@.0),
            set_cookie@ == "set-cookie"@,
            field_views(out@) == fields.take(next as int).filter(relayable()),
            forall|i: int| 0 <= i < out@.len() ==> in_lower_case((#[trigger] out@[i])@.0),
        decreases items@.len() - next,
    {
        let item = &items[next];
        let ghost before = out@;
        proof {
            reveal(Seq::filter);
            assert(fields[next as int] == item@);
            assert(fields.take(next + 1).drop_last() =~= fields.take(next as int));
        }
        if item.name != set_cookie {
            let value = item.value.clone();
            assert(value@ =~= item.value@);
            out.push(Field { name: item.name.clone(), value });
            assert(field_views(out@) =~= field_views(before).push(item@));
        }
        next += 1;
    }
    proof {
        assert(fields.take(next as int) =~= fields);
        kept_fields_stay_grouped(fields, relayable());
    }
    out
}

/// Puts fields into a map of the server side.
///
/// It is an error when the server does not take a field from bytes. Up to
/// [`MAX_NAMES`] names always fit; of more it depends on the names whether there
/// is room.
fn server_headers(fields: &Vec<Field>) -> (out: Result<warp::http::HeaderMap, Error>)
    requires
        grouped(field_views(fields@)),
        forall|i: int| 0 <= i < fields@.len() ==> in_lower_case((#[trigger] fields@[i])@.0),
    ensures
        match out {
            Ok(map) => server_fields(map) == field_views(fields@) && server_writable(
                field_views(fields@),
            ),
            Err(err) => err is Http && (!server_writable(field_views(fields@)) || names(
                field_views(fields@),
            ).len() > MAX_NAMES),
        },
{
    let ghost all = field_views(fields@);
    let mut out = new_server_headers();
    let mut next: usize = 0;
    assert(server_fields(out) =~= all.take(0));
    while next < fields.len()
        invariant
            next <= fields@.len(),
            all == field_views(fields@),
            grouped(all),
            forall|i: int| 0 <= i < fields@.len() ==> in_lower_case((#[trigger] fields@[i])@.0),
            server_fields(out) == all.take(next as int),
            server_writable(all.take(next as int)),
        decreases fields@.len() - next,
    {
        let field = &fields[next];
        proof {
            assert(all[next as int] == field@);
            next_field_comes_last(all, next as int);
            names_of_some_are_among_all(all.take(next as int), all);
            lower_case_stays(field@.0);
        }
        match append_server_field(&mut out, field.name.as_str(), field.value.as_slice()) {
            Ok(_) => {},
            Err(err) => {
                return Err(Error::from(err));
            },
        }
        next += 1;
    }
    assert(all.take(next as int) =~= all);
    Ok(out)
}

/// Converts the headers of the client side into those of the server side,
/// without the cookies that the target would set.
///
/// It is an error when the server does not take a field from bytes. Up to
/// [`MAX_NAMES`] names always fit; of more it depends on the names whether there
/// is room.
pub fn relayed_headers(headers: &reqwest::header::HeaderMap) -> (out: Result<
    warp::http::HeaderMap,
    Error,
>)
    ensures
        match out {
            Ok(map) => server_fields(map) == relayed(client_fields(*headers)) && server_writable(
                relayed(client_fields(*headers)),
            ),
            Err(err) => err is Http && (!server_writable(relayed(client_fields(*headers))) || names(
                relayed(client_fields(*headers)),
            ).len() > MAX_NAMES),
        },
{
    let fields = relayed_fields(headers);
    server_headers(&fields)
}

/// The fields of one name.
pub open spec fn of_name(fields: Seq<FieldView>, name: Seq<char>) -> Seq<FieldView> {
    fields.filter(|field: FieldView| field.0 == name)
}

/// No cookie that a target sets reaches the page. Of every other name all
/// values do, in their order, and no field is made up.
pub proof fn all_but_cookies_reach_the_page(fields: Seq<FieldView>, name: Seq<char>)
    ensures
        !mentions(relayed(fields), "set-cookie"@),
        name != "set-cookie"@ ==> of_name(relayed(fields), name) == of_name(fields, name),
        forall|i: int|
            0 <= i < relayed(fields).len() ==> fields.contains(#[trigger] relayed(fields)[i]),
    decreases fields.len(),
{
    assert forall|i: int| 0 <= i < relayed(fields).len() implies fields.contains(
        #[trigger] relayed(fields)[i],
    ) by {
        assert(relayed(fields).contains(relayed(fields)[i]));
        fields.lemma_filter_contains_rev(relayable(), relayed(fields)[i]);
    }
    reveal(Seq::filter);
    if fields.len() > 0 {
        let rest = fields.drop_last();
        all_but_cookies_reach_the_page(rest, name);
        if relayable()(fields.last()) {
            assert(relayed(fields).drop_last() =~= relayed(rest));
            assert(relayed(fields).last() == fields.last());
        }
    }
}

/// Two answers that differ in their cookies only, in how many there are, what
/// they hold and where among the other fields they stand, hand on the same
/// fields.
pub proof fn cookies_change_nothing(
    before1: Seq<FieldView>,
    cookies1: Seq<FieldView>,
    after1: Seq<FieldView>,
    before2: Seq<FieldView>,
    cookies2: Seq<FieldView>,
    after2: Seq<FieldView>,
)
    requires
        before1 + after1 == before2 + after2,
        forall|i: int| 0 <= i < cookies1.len() ==> (#[trigger] cookies1[i]).0 == "set-cookie"@,
        forall|i: int| 0 <= i < cookies2.len() ==> (#[trigger] cookies2[i]).0 == "set-cookie"@,
    ensures
        relayed(before1 + cookies1 + after1) == relayed(before2 + cookies2 + after2),
{
    cookies_leave_the_rest(before1, cookies1, after1);
    cookies_leave_the_rest(before2, cookies2, after2);
}

proof fn cookies_leave_the_rest(
    before: Seq<FieldView>,
    cookies: Seq<FieldView>,
    after: Seq<FieldView>,
)
    requires
        forall|i: int| 0 <= i < cookies.len() ==> (#[trigger] cookies[i]).0 == "set-cookie"@,
    ensures
        relayed(before + cookies + after) == relayed(before + after),
{
    Seq::filter_distributes_over_add(before + cookies, after, relayable());
    Seq::filter_distributes_over_add(before, cookies, relayable());
    Seq::filter_distributes_over_add(before, after, relayable());
    assert(relayed(cookies) =~= Seq::<FieldView>::empty()) by {
        if relayed(cookies).len() > 0 {
            let field = relayed(cookies)[0];
            assert(relayed(cookies).contains(field));
            cookies.lemma_filter_contains_rev(relayable(), field);
            assert(relayable()(field));
        }
    }
}

/// Every field that the client can write is sent as it came: of fields that
/// all are, none is left out, moved or changed.
pub proof fn writable_fields_are_sent_as_they_came(fields: Seq<FieldView>)
    requires
        forall|i: int|
            0 <= i < fields.len() ==> client_name((#[trigger] fields[i]).0) && field_value(
                fields[i].1,
            ),
    ensures
        sent(fields) == fields,
    decreases fields.len(),
{
    reveal(Seq::filter);
    if fields.len() > 0 {
        assert(sendable()(fields.last()));
        writable_fields_are_sent_as_they_came(fields.drop_last());
        assert(sent(fields) =~= fields);
    }
}

/// Nothing is sent that the client could not write or that did not come.
pub proof fn only_writable_fields_are_sent(fields: Seq<FieldView>)
    ensures
        forall|i: int|
            0 <= i < sent(fields).len() ==> {
                let field = #[trigger] sent(fields)[i];
                client_name(field.0) && field_value(field.1) && fields.contains(field)
            },
        forall|i: int|
            0 <= i < fields.len() && client_name((#[trigger] fields[i]).0) && field_value(
                fields[i].1,
            ) ==> sent(fields).contains(fields[i]),
{
    assert forall|i: int| 0 <= i < sent(fields).len() implies {
        let field = #[trigger] sent(fields)[i];
        client_name(field.0) && field_value(field.1) && fields.contains(field)
    } by {
        assert(sent(fields).contains(sent(fields)[i]));
        fields.lemma_filter_contains_rev(sendable(), sent(fields)[i]);
        assert(sendable()(sent(fields)[i]));
    }
    assert forall|i: int|
        0 <= i < fields.len() && client_name((#[trigger] fields[i]).0) && field_value(
            fields[i].1,
        ) implies sent(fields).contains(fields[i]) by {
        assert(sendable()(fields[i]));
    }
}

/// Names are made of letters, digits and the marks ``!#$%&'*+-.^_`|~``.
pub proof fn tokens_are_letters_digits_and_marks(c: char)
    ensures
        token_char(c) <==> ({
            ||| 'a' <= c <= 'z'
            ||| 'A' <= c <= 'Z'
            ||| '0' <= c <= '9'
            ||| c == '!'
            ||| c == '#'
            ||| c == '$'
            ||| c == '%'
            ||| c == '&'
            ||| c == '\''
            ||| c == '*'
            ||| c == '+'
            ||| c == '-'
            ||| c == '.'
            ||| c == '^'
            ||| c == '_'
            ||| c == '`'
            ||| c == '|'
            ||| c == '~'
        }),
{
    let n: u32 = c as u32;
    assert(n == c as int);
}

/// Names have between 1 and 65535 characters, and a quotation mark is the one more
/// character that the server takes.
pub proof fn server_takes_quotation_marks_in_names(name: Seq<char>)
    ensures
        client_name(name) <==> 1 <= name.len() <= 65535 && (forall|i: int|
            0 <= i < name.len() ==> token_char(#[trigger] name[i])),
        field_name(name) <==> 1 <= name.len() <= 65535 && (forall|i: int|
            0 <= i < name.len() ==> token_char(#[trigger] name[i]) || name[i] == '"'),
{
}

/// A value is made of printable characters, tabulators and bytes outside ASCII.
pub proof fn values_have_no_control_characters(value: Seq<u8>)
    ensures
        field_value(value) <==> forall|i: int|
            #![trigger value[i]]
            0 <= i < value.len() ==> value[i] == 9 || 32 <= value[i] <= 126 || 128 <= value[i],
{
}

proof fn few_names(fields: Seq<FieldView>, known: Seq<Seq<char>>)
    requires
        forall|i: int| 0 <= i < fields.len() ==> known.contains((#[trigger] fields[i]).0),
    ensures
        names(fields).len() <= known.len(),
{
    let all = fields.map_values(|field: FieldView| field.0);
    vstd::seq_lib::seq_to_set_is_finite(known);
    known.lemma_cardinality_of_set();
    assert forall|name: Seq<char>| names(fields).contains(name) implies known.to_set().contains(
        name,
    ) by {
        let i = choose|i: int| 0 <= i < all.len() && all[i] == name;
        assert(known.contains(fields[i].0));
    }
    vstd::set_lib::lemma_len_subset(names(fields), known.to_set());
}

proof fn many_names(fields: Seq<FieldView>, at: Seq<int>)
    requires
        forall|j: int| 0 <= j < at.len() ==> 0 <= #[trigger] at[j] < fields.len(),
        forall|j: int, k: int|
            0 <= j < k < at.len() ==> fields[#[trigger] at[j]].0 != fields[#[trigger] at[k]].0,
    ensures
        names(fields).len() >= at.len(),
{
    let all = fields.map_values(|field: FieldView| field.0);
    let some = at.map_values(|i: int| fields[i].0);
    assert(some.no_duplicates()) by {
        assert forall|j: int, k: int|
            0 <= j < some.len() && 0 <= k < some.len() && j != k implies some[j] != some[k] by {
            if j < k {
                assert(fields[at[j]].0 != fields[at[k]].0);
            } else {
                assert(fields[at[k]].0 != fields[at[j]].0);
            }
        }
    }
    some.unique_seq_to_set();
    vstd::seq_lib::seq_to_set_is_finite(all);
    assert forall|name: Seq<char>| some.to_set().contains(name) implies names(fields).contains(
        name,
    ) by {
        let j = choose|j: int| 0 <= j < some.len() && some[j] == name;
        assert(all[at[j]] == name);
    }
    vstd::set_lib::lemma_len_subset(some.to_set(), names(fields));
}

pub(crate) proof fn few_sent_names(fields: Seq<FieldView>, known: Seq<Seq<char>>)
    requires
        forall|i: int|
            0 <= i < fields.len() && client_name((#[trigger] fields[i]).0) && field_value(
                fields[i].1,
            ) ==> known.contains(fields[i].0),
    ensures
        names(sent(fields)).len() <= known.len(),
{
    assert forall|i: int| 0 <= i < sent(fields).len() implies known.contains(
        (#[trigger] sent(fields)[i]).0,
    ) by {
        only_writable_fields_are_sent(fields);
        let field = sent(fields)[i];
        let j = choose|j: int| 0 <= j < fields.len() && fields[j] == field;
        assert(client_name(fields[j].0));
    }
    few_names(sent(fields), known);
}

/// Of the headers of a request exactly those are sent that the client can write,
/// as they came and in their order. More than 24576 fields are never sent; as many
/// as that always are when the names of those that are sent are at most 6553.
pub proof fn request_keeps_the_headers_that_can_be_written(
    headers: warp::http::HeaderMap,
    out: Option<reqwest::header::HeaderMap>,
    known: Seq<Seq<char>>,
)
    requires
        call_ensures(try_to_reqwest_headers, (&headers,), out),
        forall|i: int|
            0 <= i < server_fields(headers).len() && client_name(
                (#[trigger] server_fields(headers)[i]).0,
            ) && field_value(server_fields(headers)[i].1) ==> known.contains(
                server_fields(headers)[i].0,
            ),
    ensures
        out matches Some(map) ==> client_fields(map) == server_fields(headers).filter(
            |field: FieldView| client_name(field.0) && field_value(field.1),
        ),
        server_fields(headers).len() > 24576 ==> out is None,
        server_fields(headers).len() <= 24576 && known.len() <= 6553 ==> out is Some,
{
    assert(sendable() =~= (|field: FieldView| client_name(field.0) && field_value(field.1)));
    few_sent_names(server_fields(headers), known);
}

/// Headers with at most 24576 fields and at most 6553 names that are sent can be
/// converted, and are converted like any others.
pub proof fn headers_with_few_names_are_converted(
    headers: warp::http::HeaderMap,
    known: Seq<Seq<char>>,
)
    requires
        server_fields(headers).len() <= 24576,
        known.len() <= 6553,
        forall|i: int|
            0 <= i < server_fields(headers).len() && client_name(
                (#[trigger] server_fields(headers)[i]).0,
            ) && field_value(server_fields(headers)[i].1) ==> known.contains(
                server_fields(headers)[i].0,
            ),
    ensures
        call_requires(to_reqwest_headers, (&headers,)),
        forall|out: reqwest::header::HeaderMap|
            #![trigger client_fields(out)]
            call_ensures(to_reqwest_headers, (&headers,), out) ==> client_fields(out)
                == server_fields(headers).filter(
                |field: FieldView| client_name(field.0) && field_value(field.1),
            ),
{
    assert(sendable() =~= (|field: FieldView| client_name(field.0) && field_value(field.1)));
    few_sent_names(server_fields(headers), known);
}

/// Headers are said to fit when there are at most 24576 fields and the names of
/// those that are sent are at most 6553, and not otherwise.
pub proof fn headers_fit_by_their_number(
    headers: warp::http::HeaderMap,
    yes: bool,
    known: Seq<Seq<char>>,
    at: Seq<int>,
)
    requires
        call_ensures(headers_fit, (&headers,), yes),
        forall|i: int|
            0 <= i < server_fields(headers).len() && client_name(
                (#[trigger] server_fields(headers)[i]).0,
            ) && field_value(server_fields(headers)[i].1) ==> known.contains(
                server_fields(headers)[i].0,
            ),
        forall|j: int|
            0 <= j < at.len() ==> 0 <= #[trigger] at[j] < server_fields(headers).len()
                && client_name(server_fields(headers)[at[j]].0) && field_value(
                server_fields(headers)[at[j]].1,
            ),
        forall|j: int, k: int|
            0 <= j < k < at.len() ==> server_fields(headers)[#[trigger] at[j]].0 != server_fields(
                headers,
            )[#[trigger] at[k]].0,
    ensures
        server_fields(headers).len() <= 24576 && known.len() <= 6553 ==> yes,
        server_fields(headers).len() > 24576 ==> !yes,
        at.len() > 6553 ==> !yes,
{
    let fields = server_fields(headers);
    few_sent_names(fields, known);
    only_writable_fields_are_sent(fields);
    let places = at.map_values(
        |i: int| choose|k: int| 0 <= k < sent(fields).len() && sent(fields)[k] == fields[i],
    );
    assert forall|j: int| 0 <= j < at.len() implies 0 <= #[trigger] places[j] < sent(fields).len()
        && sent(fields)[places[j]] == fields[at[j]] by {
        assert(client_name(fields[at[j]].0));
        assert(sent(fields).contains(fields[at[j]]));
    }
    assert forall|j: int, k: int| 0 <= j < k < places.len() implies sent(
        fields,
    )[#[trigger] places[j]].0 != sent(fields)[#[trigger] places[k]].0 by {
        assert(fields[at[j]].0 != fields[at[k]].0);
    }
    many_names(sent(fields), places);
}

/// The page is handed every field of an answer but the cookies, as it came and in
/// its order, whatever it is called and holds.
pub proof fn page_is_handed_all_but_the_cookies(
    headers: reqwest::header::HeaderMap,
    out: Vec<Field>,
)
    requires
        call_ensures(relayed_fields, (&headers,), out),
    ensures
        out@.len() == client_fields(headers).filter(|field: FieldView| field.0 != "set-cookie"@).len(),
        forall|i: int|
            0 <= i < out@.len() ==> {
                let kept = client_fields(headers).filter(
                    |field: FieldView| field.0 != "set-cookie"@,
                );
                (#[trigger] out@[i]).name@ == kept[i].0 && out@[i].value@ == kept[i].1
            },
{
    assert(relayable() =~= (|field: FieldView| field.0 != "set-cookie"@));
    let kept = client_fields(headers).filter(|field: FieldView| field.0 != "set-cookie"@);
    assert(field_views(out@) == kept);
    assert forall|i: int| 0 <= i < out@.len() implies (#[trigger] out@[i]).name@ == kept[i].0
        && out@[i].value@ == kept[i].1 by {
        assert(field_views(out@)[i] == out@[i]@);
    }
}

pub(crate) proof fn few_relayed_names(fields: Seq<FieldView>, known: Seq<Seq<char>>)
    requires
        forall|i: int|
            0 <= i < fields.len() && (#[trigger] fields[i]).0 != "set-cookie"@ ==> known.contains(
                fields[i].0,
            ),
    ensures
        names(relayed(fields)).len() <= known.len(),
{
    assert forall|i: int| 0 <= i < relayed(fields).len() implies known.contains(
        (#[trigger] relayed(fields)[i]).0,
    ) by {
        let field = relayed(fields)[i];
        assert(relayed(fields).contains(field));
        fields.lemma_filter_contains_rev(relayable(), field);
        assert(relayable()(field));
        let j = choose|j: int| 0 <= j < fields.len() && fields[j] == field;
        assert(fields[j].0 != "set-cookie"@);
    }
    few_names(relayed(fields), known);
}

pub(crate) proof fn relayed_is_writable_iff_each_is(fields: Seq<FieldView>)
    ensures
        server_writable(relayed(fields)) <==> (forall|i: int|
            0 <= i < fields.len() && (#[trigger] fields[i]).0 != "set-cookie"@ ==> field_name(
                fields[i].0,
            ) && field_value(fields[i].1)),
{
    if server_writable(relayed(fields)) {
        assert forall|i: int| 0 <= i < fields.len() && (#[trigger] fields[i]).0
            != "set-cookie"@ implies field_name(fields[i].0) && field_value(fields[i].1) by {
            assert(relayable()(fields[i]));
            assert(relayed(fields).contains(fields[i]));
            let k = choose|k: int| 0 <= k < relayed(fields).len() && relayed(fields)[k] == fields[i];
            assert(field_name(relayed(fields)[k].0));
        }
    }
    if forall|i: int|
        0 <= i < fields.len() && (#[trigger] fields[i]).0 != "set-cookie"@ ==> field_name(
            fields[i].0,
        ) && field_value(fields[i].1) {
        assert forall|k: int| 0 <= k < relayed(fields).len() implies field_name(
            (#[trigger] relayed(fields)[k]).0,
        ) && field_value(relayed(fields)[k].1) by {
            let field = relayed(fields)[k];
            assert(relayed(fields).contains(field));
            fields.lemma_filter_contains_rev(relayable(), field);
            assert(relayable()(field));
            let j = choose|j: int| 0 <= j < fields.len() && fields[j] == field;
            assert(fields[j].0 != "set-cookie"@);
        }
    }
}

/// The fields of an answer reach the page's side when the server can write each of
/// them but the cookies and they have at most 6553 names, and never when one of
/// them cannot be written. What reaches it is all of them but the cookies.
pub proof fn answer_keeps_all_headers_but_the_cookies(
    headers: reqwest::header::HeaderMap,
    out: Result<warp::http::HeaderMap, Error>,
    known: Seq<Seq<char>>,
)
    requires
        call_ensures(relayed_headers, (&headers,), out),
        forall|i: int|
            0 <= i < client_fields(headers).len() && (#[trigger] client_fields(headers)[i]).0
                != "set-cookie"@ ==> known.contains(client_fields(headers)[i].0),
    ensures
        out matches Ok(map) ==> server_fields(map) == client_fields(headers).filter(
            |field: FieldView| field.0 != "set-cookie"@,
        ),
        out matches Err(err) ==> err is Http,
        (forall|i: int|
            0 <= i < client_fields(headers).len() && (#[trigger] client_fields(headers)[i]).0
                != "set-cookie"@ ==> field_name(client_fields(headers)[i].0) && field_value(
                client_fields(headers)[i].1,
            )) && known.len() <= 6553 ==> out is Ok,
        out is Ok ==> (forall|i: int|
            0 <= i < client_fields(headers).len() && (#[trigger] client_fields(headers)[i]).0
                != "set-cookie"@ ==> field_name(client_fields(headers)[i].0) && field_value(
                client_fields(headers)[i].1,
            )),
{
    assert(relayable() =~= (|field: FieldView| field.0 != "set-cookie"@));
    few_relayed_names(client_fields(headers), known);
    relayed_is_writable_iff_each_is(client_fields(headers));
}

} // verus!
