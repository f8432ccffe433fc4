//! The JSON text of responses: stored records, the list envelope, and the
//! messages of each request.

use vstd::prelude::*;

use crate::models::{GameServer, Region};

verus! {

/// The JSON string literal for `s`: quoted, with `"`, `\` and control
/// characters escaped.
pub uninterp spec fn json_quoted(s: Seq<char>) -> Seq<char>;

/// The quoted, escaped form in which Rust's `Debug` writes the text `s`.
pub uninterp spec fn debug_quoted(s: Seq<char>) -> Seq<char>;

/// Relies on `rustc_serialize::json::encode`: a string encodes as a JSON
/// string literal. Writing into a `String` cannot fail.
#[verifier::external_body]
fn quote_json(s: &str) -> (r: String)
    ensures
        r@ == json_quoted(s@),
{
    match rustc_serialize::json::encode(&s) {
        Ok(t) => t,
        Err(_) => String::new(),
    }
}

/// Relies on `<str as Debug>::fmt`: the text quoted and escaped.
#[verifier::external_body]
fn quote_debug(s: &str) -> (r: String)
    ensures
        r@ == debug_quoted(s@),
{
    format!("{:?}", s)
}

/// The decimal digit for `d`, which is below ten.
pub open spec fn digit_char(d: nat) -> char {
    if d == 0 { '0' } else if d == 1 { '1' } else if d == 2 { '2' } else if d == 3 { '3' }
    else if d == 4 { '4' } else if d == 5 { '5' } else if d == 6 { '6' } else if d == 7 { '7' }
    else if d == 8 { '8' } else { '9' }
}

/// `n` in decimal, without leading zeros.
pub open spec fn nat_text(n: nat) -> Seq<char>
    decreases n,
{
    if n < 10 {
        seq![digit_char(n)]
    } else {
        nat_text(n / 10) + seq![digit_char(n % 10)]
    }
}

/// `n` in decimal, with a leading `-` when negative.
pub open spec fn int_text(n: int) -> Seq<char> {
    if n < 0 {
        seq!['-'] + nat_text((-n) as nat)
    } else {
        nat_text(n as nat)
    }
}

/// A number, or `null` where there is none.
pub open spec fn optional_int_text(v: Option<i32>) -> Seq<char> {
    match v {
        Some(n) => int_text(n as int),
        None => seq!['n', 'u', 'l', 'l'],
    }
}

/// The texts of `parts`, with `sep` between each two.
pub open spec fn join(parts: Seq<Seq<char>>, sep: Seq<char>) -> Seq<char>
    decreases parts.len(),
{
    if parts.len() == 0 {
        Seq::empty()
    } else if parts.len() == 1 {
        parts[0]
    } else {
        join(parts.drop_last(), sep) + sep + parts.last()
    }
}

/// A JSON array holding the already written `items`.
pub open spec fn array_text(items: Seq<Seq<char>>) -> Seq<char> {
    seq!['['] + join(items, seq![',']) + seq![']']
}

/// The JSON array of the strings `texts`.
pub open spec fn texts_json(texts: Seq<String>) -> Seq<char> {
    array_text(texts.map_values(|t: String| json_quoted(t@)))
}

/// The JSON object of a stored server, fields in declaration order.
pub open spec fn server_json(s: GameServer) -> Seq<char> {
    server_head(s) + server_tail(s)
}

/// The opening of a server's JSON object: the id and the text fields.
pub open spec fn server_head(s: GameServer) -> Seq<char> {
    "{\"id\":"@ + int_text(s.id as int)
        + ",\"name\":"@ + json_quoted(s.name@)
        + ",\"region\":"@ + json_quoted(s.region@)
        + ",\"game_type\":"@ + json_quoted(s.game_type@)
        + ",\"ip\":"@ + json_quoted(s.ip@)
}

/// The rest of a server's JSON object: the capacities, the counts and the tags.
pub open spec fn server_tail(s: GameServer) -> Seq<char> {
    ",\"max_users\":"@ + int_text(s.max_users as int)
        + ",\"current_users\":"@ + int_text(s.current_users as int)
        + ",\"current_premium_users\":"@ + optional_int_text(s.current_premium_users)
        + ",\"max_premium_users\":"@ + optional_int_text(s.max_premium_users)
        + ",\"tags\":"@ + texts_json(s.tags@)
        + "}"@
}

/// The JSON object of a stored region.
pub open spec fn region_json(r: Region) -> Seq<char> {
    "{\"id\":"@ + int_text(r.id as int) + ",\"name\":"@ + json_quoted(r.name@) + "}"@
}

/// The envelope of a listing: the array of results and its length.
pub open spec fn envelope(results: Seq<Seq<char>>) -> Seq<char> {
    "{\"results\": "@ + array_text(results) + ", \"size\": "@ + nat_text(results.len()) + "}"@
}

/// The envelope listing `rows`.
pub open spec fn servers_envelope(rows: Seq<GameServer>) -> Seq<char> {
    envelope(rows.map_values(|s: GameServer| server_json(s)))
}

/// The envelope of a listing holds one result for each row, and gives
/// their number as its size.
pub proof fn envelope_size_counts_results(rows: Seq<GameServer>, regions: Seq<Region>)
    ensures
        ({
            let parts = rows.map_values(|s: GameServer| server_json(s));
            &&& servers_envelope(rows) == "{\"results\": "@ + array_text(parts) + ", \"size\": "@ + nat_text(parts.len()) + "}"@
            &&& parts.len() == rows.len()
            &&& forall|i: int| 0 <= i < rows.len() ==> parts[i] == server_json(#[trigger] rows[i])
        }),
        ({
            let parts = regions.map_values(|r: Region| region_json(r));
            &&& regions_envelope(regions) == "{\"results\": "@ + array_text(parts) + ", \"size\": "@ + nat_text(parts.len()) + "}"@
            &&& parts.len() == regions.len()
            &&& forall|i: int| 0 <= i < regions.len() ==> parts[i] == region_json(#[trigger] regions[i])
        }),
{
}

/// The envelope listing `regions`.
pub open spec fn regions_envelope(regions: Seq<Region>) -> Seq<char> {
    envelope(regions.map_values(|r: Region| region_json(r)))
}

/// The text of decimal digit `d`.
fn digit_str(d: u64) -> (r: &'static str)
    requires
        d < 10,
    ensures
        r@ == seq![digit_char(d as nat)],
{
    proof {
        reveal_strlit("0");
        reveal_strlit("1");
        reveal_strlit("2");
        reveal_strlit("3");
        reveal_strlit("4");
        reveal_strlit("5");
        reveal_strlit("6");
        reveal_strlit("7");
        reveal_strlit("8");
        reveal_strlit("9");
    }
    if d == 0 { "0" } else if d == 1 { "1" } else if d == 2 { "2" } else if d == 3 { "3" }
    else if d == 4 { "4" } else if d == 5 { "5" } else if d == 6 { "6" } else if d == 7 { "7" }
    else if d == 8 { "8" } else { "9" }
}

/// Appends `n` in decimal to `out`.
fn push_nat(out: &mut String, n: u64)
    ensures
        final(out)@ == old(out)@ + nat_text(n as nat),
    decreases n,
{
    if n >= 10 {
        push_nat(out, n / 10);
        out.append(digit_str(n % 10));
        assert(nat_text(n as nat) == nat_text((n / 10) as nat) + seq![digit_char((n % 10) as nat)]);
    } else {
        out.append(digit_str(n));
    }
}

/// Appends `n` in decimal to `out`.
fn push_int(out: &mut String, n: i32)
    ensures
        final(out)@ == old(out)@ + int_text(n as int),
{
    if n < 0 {
        proof {
            reveal_strlit("-");
        }
        out.append("-");
        let magnitude: i64 = -(n as i64);
        push_nat(out, magnitude as u64);
        assert(final(out)@ =~= old(out)@ + int_text(n as int));
    } else {
        push_nat(out, n as u64);
    }
}

/// Appends a number, or `null` where there is none.
fn push_optional_int(out: &mut String, v: Option<i32>)
    ensures
        final(out)@ == old(out)@ + optional_int_text(v),
{
    match v {
        Some(n) => push_int(out, n),
        None => {
            proof {
                reveal_strlit("null");
            }
            out.append("null");
        },
    }
}

/// Appends the JSON array of the strings `texts`.
fn push_texts(out: &mut String, texts: &Vec<String>)
    ensures
        final(out)@ == old(out)@ + texts_json(texts@),
{
    proof {
        reveal_strlit("[");
        reveal_strlit(",");
        reveal_strlit("]");
    }
    let ghost parts = texts@.map_values(|t: String| json_quoted(t@));
    let ghost start = out@;
    out.append("[");
    let mut i: usize = 0;
    while i < texts.len()
        invariant
            0 <= i <= texts.len(),
            parts == texts@.map_values(|t: String| json_quoted(t@)),
            out@ == start + seq!['['] + join(parts.take(i as int), seq![',']),
        decreases texts.len() - i,
    {
        let ghost before = out@;
        if i > 0 {
            out.append(",");
        }
        let q = quote_json(texts[i].as_str());
        out.append(q.as_str());
        proof {
            reveal_strlit(",");
            let p1 = parts.take(i + 1);
            assert(p1.drop_last() =~= parts.take(i as int));
            assert(p1.last() == q@);
            if i == 0 {
                assert(join(p1, seq![',']) == p1[0]);
                assert(out@ =~= start + seq!['['] + join(p1, seq![',']));
            } else {
                assert(join(p1, seq![',']) == join(p1.drop_last(), seq![',']) + seq![','] + p1.last());
                assert(out@ =~= start + seq!['['] + join(p1, seq![',']));
            }
        }
        i = i + 1;
    }
    out.append("]");
    assert(parts.take(texts@.len() as int) =~= parts);
}

/// Appends the JSON object of a stored server.
fn push_server(out: &mut String, s: &GameServer)
    ensures
        final(out)@ == old(out)@ + server_json(*s),
{
    let ghost start = out@;
    push_server_head(out, s);
    push_server_tail(out, s);
    assert(out@ =~= start + server_json(*s));
}

/// Appends the opening of a server's JSON object.
fn push_server_head(out: &mut String, s: &GameServer)
    ensures
        final(out)@ == old(out)@ + server_head(*s),
{
    let ghost start = out@;
    out.append("{\"id\":");
    push_int(out, s.id);
    out.append(",\"name\":");
    out.append(quote_json(s.name.as_str()).as_str());
    out.append(",\"region\":");
    out.append(quote_json(s.region.as_str()).as_str());
    out.append(",\"game_type\":");
    out.append(quote_json(s.game_type.as_str()).as_str());
    out.append(",\"ip\":");
    out.append(quote_json(s.ip.as_str()).as_str());
    assert(out@ =~= start + server_head(*s));
}

/// Appends the rest of a server's JSON object.
fn push_server_tail(out: &mut String, s: &GameServer)
    ensures
        final(out)@ == old(out)@ + server_tail(*s),
{
    let ghost start = out@;
    out.append(",\"max_users\":");
    push_int(out, s.max_users);
    out.append(",\"current_users\":");
    push_int(out, s.current_users);
    out.append(",\"current_premium_users\":");
    push_optional_int(out, s.current_premium_users);
    out.append(",\"max_premium_users\":");
    push_optional_int(out, s.max_premium_users);
    out.append(",\"tags\":");
    push_texts(out, &s.tags);
    out.append("}");
    assert(out@ =~= start + server_tail(*s));
}

/// Appends the JSON object of a stored region.
fn push_region(out: &mut String, r: &Region)
    ensures
        final(out)@ == old(out)@ + region_json(*r),
{
    let ghost start = out@;
    out.append("{\"id\":");
    push_int(out, r.id);
    out.append(",\"name\":");
    out.append(quote_json(r.name.as_str()).as_str());
    out.append("}");
    assert(out@ =~= start + region_json(*r));
}

/// The JSON object of a stored server.
pub fn render_server(s: &GameServer) -> (r: String)
    ensures
        r@ == server_json(*s),
{
    let mut out = String::new();
    push_server(&mut out, s);
    assert(out@ =~= server_json(*s));
    out
}

/// The JSON object of a stored region.
pub fn render_region(r: &Region) -> (t: String)
    ensures
        t@ == region_json(*r),
{
    let mut out = String::new();
    push_region(&mut out, r);
    assert(out@ =~= region_json(*r));
    out
}

/// The envelope listing `rows`.
pub fn render_servers(rows: &Vec<GameServer>) -> (r: String)
    ensures
        r@ == servers_envelope(rows@),
{
    let ghost parts = rows@.map_values(|s: GameServer| server_json(s));
    let mut out = String::new();
    out.append("{\"results\": [");
    let ghost start = out@;
    let mut i: usize = 0;
    while i < rows.len()
        invariant
            0 <= i <= rows.len(),
            parts == rows@.map_values(|s: GameServer| server_json(s)),
            out@ == start + join(parts.take(i as int), seq![',']),
        decreases rows.len() - i,
    {
        let ghost before = out@;
        if i > 0 {
            out.append(",");
        }
        push_server(&mut out, &rows[i]);
        proof {
            reveal_strlit(",");
            let p1 = parts.take(i + 1);
            assert(p1.drop_last() =~= parts.take(i as int));
            assert(p1.last() == server_json(rows@[i as int]));
            if i == 0 {
                assert(join(p1, seq![',']) == p1[0]);
            } else {
                assert(join(p1, seq![',']) == join(p1.drop_last(), seq![',']) + seq![','] + p1.last());
            }
            assert(out@ =~= start + join(p1, seq![',']));
        }
        i = i + 1;
    }
    assert(parts.take(rows@.len() as int) =~= parts);
    out.append("], \"size\": ");
    push_nat(&mut out, rows.len() as u64);
    out.append("}");
    proof {
        reveal_strlit("{\"results\": [");
        reveal_strlit("{\"results\": ");
        reveal_strlit("], \"size\": ");
        reveal_strlit(", \"size\": ");
        reveal_strlit("[");
        reveal_strlit("]");
        assert(out@ =~= servers_envelope(rows@));
    }
    out
}

/// The envelope listing `regions`.
pub fn render_regions(regions: &Vec<Region>) -> (r: String)
    ensures
        r@ == regions_envelope(regions@),
{
    let ghost parts = regions@.map_values(|r: Region| region_json(r));
    let mut out = String::new();
    out.append("{\"results\": [");
    let ghost start = out@;
    let mut i: usize = 0;
    while i < regions.len()
        invariant
            0 <= i <= regions.len(),
            parts == regions@.map_values(|r: Region| region_json(r)),
            out@ == start + join(parts.take(i as int), seq![',']),
        decreases regions.len() - i,
    {
        let ghost before = out@;
        if i > 0 {
            out.append(",");
        }
        push_region(&mut out, &regions[i]);
        proof {
            reveal_strlit(",");
            let p1 = parts.take(i + 1);
            assert(p1.drop_last() =~= parts.take(i as int));
            assert(p1.last() == region_json(regions@[i as int]));
            if i == 0 {
                assert(join(p1, seq![',']) == p1[0]);
            } else {
                assert(join(p1, seq![',']) == join(p1.drop_last(), seq![',']) + seq![','] + p1.last());
            }
            assert(out@ =~= start + join(p1, seq![',']));
        }
        i = i + 1;
    }
    assert(parts.take(regions@.len() as int) =~= parts);
    out.append("], \"size\": ");
    push_nat(&mut out, regions.len() as u64);
    out.append("}");
    proof {
        reveal_strlit("{\"results\": [");
        reveal_strlit("{\"results\": ");
        reveal_strlit("], \"size\": ");
        reveal_strlit(", \"size\": ");
        reveal_strlit("[");
        reveal_strlit("]");
        assert(out@ =~= regions_envelope(regions@));
    }
    out
}

/// The reply to a server that was stored.
pub open spec fn server_added_text(name: Seq<char>) -> Seq<char> {
    "\"server `"@ + name + "` added!\""@
}

/// The reply to a region that was stored.
pub open spec fn region_added_text(name: Seq<char>) -> Seq<char> {
    "\"Region `"@ + name + "` added to DB!\""@
}

/// The reply to an update that was stored.
pub open spec fn update_done_text() -> Seq<char> {
    "\"Update of server was successful\""@
}

/// The set of unknown region names, as a `HashSet` of texts prints by `Debug`.
pub open spec fn name_set_text(names: Seq<Seq<char>>) -> Seq<char> {
    seq!['{'] + join(names.map_values(|n: Seq<char>| debug_quoted(n)), seq![',', ' ']) + seq!['}']
}

/// The views of `names`.
pub open spec fn texts_view(names: Seq<String>) -> Seq<Seq<char>> {
    names.map_values(|n: String| n@)
}

/// The reply naming region names that are not stored.
pub open spec fn unknown_regions_text(names: Seq<Seq<char>>) -> Seq<char> {
    "\"Regions `"@ + name_set_text(names) + "` do not exist in the Database!\""@
}

/// The reply to a server that was stored.
pub fn server_added_message(name: &str) -> (r: String)
    ensures
        r@ == server_added_text(name@),
{
    let mut out = String::from_str("\"server `");
    out.append(name);
    out.append("` added!\"");
    out
}

/// The reply to a region that was stored.
pub fn region_added_message(name: &str) -> (r: String)
    ensures
        r@ == region_added_text(name@),
{
    let mut out = String::from_str("\"Region `");
    out.append(name);
    out.append("` added to DB!\"");
    out
}

/// The reply to an update that was stored.
pub fn update_done_message() -> (r: String)
    ensures
        r@ == update_done_text(),
{
    String::from_str("\"Update of server was successful\"")
}

/// The reply naming region names that are not stored.
pub fn unknown_regions_message(names: &Vec<String>) -> (r: String)
    ensures
        r@ == unknown_regions_text(texts_view(names@)),
{
    let ghost parts = names@.map_values(|n: String| debug_quoted(n@));
    assert(parts =~= texts_view(names@).map_values(|n: Seq<char>| debug_quoted(n)));
    let mut out = String::from_str("\"Regions `{");
    let ghost start = out@;
    let mut i: usize = 0;
    while i < names.len()
        invariant
            0 <= i <= names.len(),
            parts == names@.map_values(|n: String| debug_quoted(n@)),
            out@ == start + join(parts.take(i as int), seq![',', ' ']),
        decreases names.len() - i,
    {
        let ghost before = out@;
        if i > 0 {
            out.append(", ");
        }
        let q = quote_debug(names[i].as_str());
        out.append(q.as_str());
        proof {
            reveal_strlit(", ");
            let p1 = parts.take(i + 1);
            assert(p1.drop_last() =~= parts.take(i as int));
            assert(p1.last() == q@);
            if i == 0 {
                assert(join(p1, seq![',', ' ']) == p1[0]);
            } else {
                assert(join(p1, seq![',', ' ']) == join(p1.drop_last(), seq![',', ' ']) + seq![',', ' '] + p1.last());
            }
            assert(out@ =~= start + join(p1, seq![',', ' ']));
        }
        i = i + 1;
    }
    assert(parts.take(names@.len() as int) =~= parts);
    out.append("}` do not exist in the Database!\"");
    proof {
        reveal_strlit("\"Regions `{");
        reveal_strlit("\"Regions `");
        reveal_strlit("}` do not exist in the Database!\"");
        reveal_strlit("` do not exist in the Database!\"");
        assert(out@ =~= unknown_regions_text(texts_view(names@)));
    }
    out
}

} // verus!
