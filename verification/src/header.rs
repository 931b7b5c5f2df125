//! Header aggregator: turns a header mapping into the transport engine's
//! header-list representation and installs it on the handle in a single call.
//!
//! Installing a list **replaces** any previously installed list; it never
//! merges. The public surface is therefore a single bulk entry point (plus the
//! content-type shorthand), never an incremental append.

use vstd::prelude::*;

use crate::error::RelayError;
use crate::interop::{HeaderEntry, HeaderEntryV, HeaderMap};

verus! {

#[verifier::external_type_specification]
#[verifier::external_body]
pub struct ExEasy(curl::easy::Easy);

#[verifier::external_type_specification]
#[verifier::external_body]
pub struct ExList(curl::easy::List);

#[verifier::external_type_specification]
#[verifier::external_body]
pub struct ExCurlError(curl::Error);

/// The lines held by an engine header list, in insertion order.
pub uninterp spec fn list_lines(l: curl::easy::List) -> Seq<Seq<char>>;

/// The header lines currently installed on a transport handle.
pub uninterp spec fn installed_headers(e: curl::easy::Easy) -> Seq<Seq<char>>;

/// Relies on curl's `List::new`: a freshly created list holds no lines.
#[verifier::external_body]
fn list_new() -> (l: curl::easy::List)
    ensures
        list_lines(l) == Seq::<Seq<char>>::empty(),
{
    curl::easy::List::new()
}

/// Relies on curl's `List::append`: the line is copied to the end of the
/// list. Appending fails exactly when the line holds an interior nul
/// character, and leaves the list unchanged then.
#[verifier::external_body]
fn list_append(l: &mut curl::easy::List, line: &str) -> (r: Result<(), curl::Error>)
    ensures
        r is Ok <==> line_ok(line@),
        r is Ok ==> list_lines(*final(l)) == list_lines(*old(l)).push(line@),
        r is Err ==> list_lines(*final(l)) == list_lines(*old(l)),
{
    l.append(line)
}

/// Relies on curl's `Easy::http_headers`: on success the given list replaces,
/// rather than merges with, whatever list was installed before.
#[verifier::external_body]
fn install_list(e: &mut curl::easy::Easy, l: curl::easy::List) -> (r: Result<(), curl::Error>)
    ensures
        r is Ok ==> installed_headers(*final(e)) == list_lines(l),
{
    e.http_headers(l)
}

/// Relies on curl's `Error::description`: a human-readable description of the
/// engine failure, used as the underlying cause of a Network error.
#[verifier::external_body]
fn curl_error_text(err: &curl::Error) -> String {
    err.description().to_owned()
}

/// One formatted header line: `"name: value"`.
pub open spec fn header_line(name: Seq<char>, value: Seq<char>) -> Seq<char> {
    name + ": "@ + value
}

/// The lines one entry emits: one line per value, in value order.
pub open spec fn entry_lines(e: HeaderEntryV) -> Seq<Seq<char>> {
    Seq::new(e.values.len(), |i: int| header_line(e.name, e.values[i]))
}

/// Every line the aggregator emits for a mapping: the lines of each entry, in
/// entry order.
pub open spec fn emitted_lines(entries: Seq<HeaderEntryV>) -> Seq<Seq<char>>
    decreases entries.len(),
{
    if entries.len() == 0 {
        Seq::empty()
    } else {
        emitted_lines(entries.drop_last()) + entry_lines(entries.last())
    }
}

/// The total number of values over all entries of a mapping.
pub open spec fn total_value_count(entries: Seq<HeaderEntryV>) -> nat
    decreases entries.len(),
{
    if entries.len() == 0 {
        0
    } else {
        total_value_count(entries.drop_last()) + entries.last().values.len()
    }
}

/// A line the engine accepts: one with no interior nul character.
pub open spec fn line_ok(l: Seq<char>) -> bool {
    forall|i: int| 0 <= i < l.len() ==> l[i] != '\0'
}

/// All emitted lines are acceptable to the engine.
pub open spec fn all_lines_ok(lines: Seq<Seq<char>>) -> bool {
    forall|i: int| 0 <= i < lines.len() ==> line_ok(#[trigger] lines[i])
}

/// `needle` occurs contiguously inside `hay`.
pub open spec fn contains_seq(hay: Seq<char>, needle: Seq<char>) -> bool {
    exists|off: int|
        0 <= off && off + needle.len() <= hay.len() && #[trigger] hay.subrange(
            off,
            off + needle.len(),
        ) == needle
}

/// Law: for a mapping with per-entry value counts v1..vn, the aggregator
/// emits exactly v1 + .. + vn lines.
pub proof fn lemma_emission_count(entries: Seq<HeaderEntryV>)
    ensures
        emitted_lines(entries).len() == total_value_count(entries),
    decreases entries.len(),
{
    if entries.len() > 0 {
        lemma_emission_count(entries.drop_last());
    }
}

/// Law: every emitted line is exactly `"name: value"` for some entry name and
/// one of its values.
pub proof fn lemma_emitted_line_shape(entries: Seq<HeaderEntryV>, k: int)
    requires
        0 <= k < emitted_lines(entries).len(),
    ensures
        exists|i: int, j: int|
            0 <= i < entries.len() && 0 <= j < entries[i].values.len() && emitted_lines(entries)[k]
                == header_line(entries[i].name, entries[i].values[j]),
    decreases entries.len(),
{
    let lines = emitted_lines(entries);
    let prefix = emitted_lines(entries.drop_last());
    if k < prefix.len() {
        lemma_emitted_line_shape(entries.drop_last(), k);
        let (i, j) = choose|i: int, j: int|
            0 <= i < entries.drop_last().len() && 0 <= j < entries.drop_last()[i].values.len()
                && prefix[k] == header_line(
                entries.drop_last()[i].name,
                entries.drop_last()[i].values[j],
            );
        assert(lines[k] == header_line(entries[i].name, entries[i].values[j]));
    } else {
        let i = entries.len() - 1;
        let j = k - prefix.len();
        assert(lines[k] == header_line(entries[i].name, entries[i].values[j]));
    }
}

/// Concatenating mappings concatenates their emissions.
proof fn lemma_emitted_concat(a: Seq<HeaderEntryV>, b: Seq<HeaderEntryV>)
    ensures
        emitted_lines(a + b) == emitted_lines(a) + emitted_lines(b),
    decreases b.len(),
{
    if b.len() == 0 {
        assert(a + b =~= a);
        assert(emitted_lines(a) + emitted_lines(b) =~= emitted_lines(a));
    } else {
        lemma_emitted_concat(a, b.drop_last());
        assert((a + b).drop_last() =~= a + b.drop_last());
        assert((a + b).last() == b.last());
        assert(emitted_lines(a + b) =~= emitted_lines(a) + emitted_lines(b));
    }
}

/// Emission over a one-longer prefix appends exactly the lines of the next
/// entry.
proof fn lemma_emitted_take_snoc(entries: Seq<HeaderEntryV>, k: int)
    requires
        0 <= k < entries.len(),
    ensures
        emitted_lines(entries.take(k + 1)) == emitted_lines(entries.take(k)) + entry_lines(
            entries[k],
        ),
{
    assert(entries.take(k + 1).drop_last() =~= entries.take(k));
    assert(entries.take(k + 1).last() == entries[k]);
}

/// Whatever a prefix of the mapping emits is a prefix of the full emission.
proof fn lemma_emitted_take_prefix(entries: Seq<HeaderEntryV>, k: int)
    requires
        0 <= k <= entries.len(),
    ensures
        emitted_lines(entries.take(k)).len() <= emitted_lines(entries).len(),
        forall|x: int|
            0 <= x < emitted_lines(entries.take(k)).len() ==> #[trigger] emitted_lines(entries)[x]
                == emitted_lines(entries.take(k))[x],
{
    assert(entries.take(k) + entries.skip(k) =~= entries);
    lemma_emitted_concat(entries.take(k), entries.skip(k));
}

/// When appending fails midway, the refused line is the first unacceptable
/// line of the whole emission, and the error message names it.
proof fn lemma_append_failure(
    entries: Seq<HeaderEntryV>,
    iv: int,
    j: int,
    listv: Seq<Seq<char>>,
    linev: Seq<char>,
    msgv: Seq<char>,
)
    requires
        0 <= iv < entries.len(),
        0 <= j < entries[iv].values.len(),
        listv == emitted_lines(entries.take(iv)) + Seq::new(
            j as nat,
            |k: int| header_line(entries[iv].name, entries[iv].values[k]),
        ),
        all_lines_ok(listv),
        linev == header_line(entries[iv].name, entries[iv].values[j]),
        !line_ok(linev),
        msgv == "failed to append header line "@ + linev,
    ensures
        !all_lines_ok(emitted_lines(entries)),
        exists|k: int|
            {
                &&& 0 <= k < emitted_lines(entries).len()
                &&& !line_ok(#[trigger] emitted_lines(entries)[k])
                &&& (forall|k2: int| 0 <= k2 < k ==> line_ok(#[trigger] emitted_lines(entries)[k2]))
                &&& contains_seq(msgv, emitted_lines(entries)[k])
            },
{
    let prefix_len = emitted_lines(entries.take(iv)).len() as int;
    let bad = prefix_len + j;
    lemma_emitted_take_snoc(entries, iv);
    lemma_emitted_take_prefix(entries, iv + 1);
    assert(entry_lines(entries[iv])[j] == linev);
    assert(emitted_lines(entries.take(iv + 1))[bad] == linev);
    assert(emitted_lines(entries)[bad] == linev);
    assert(!line_ok(emitted_lines(entries)[bad]));
    assert forall|k2: int| 0 <= k2 < bad implies line_ok(#[trigger] emitted_lines(entries)[k2]) by {
        assert(emitted_lines(entries)[k2] == emitted_lines(entries.take(iv + 1))[k2]);
        if k2 < prefix_len {
            assert(emitted_lines(entries.take(iv + 1))[k2] == emitted_lines(entries.take(iv))[k2]);
            assert(emitted_lines(entries.take(iv))[k2] == listv[k2]);
        } else {
            assert(emitted_lines(entries.take(iv + 1))[k2] == entry_lines(entries[iv])[k2
                - prefix_len]);
            assert(entry_lines(entries[iv])[k2 - prefix_len] == listv[k2]);
        }
        assert(line_ok(listv[k2]));
    }
    assert(!all_lines_ok(emitted_lines(entries)));
    let off = ("failed to append header line "@).len() as int;
    assert(msgv.subrange(off, off + linev.len() as int) =~= linev);
    assert(contains_seq(msgv, emitted_lines(entries)[bad]));
}

/// Builds the formatted line `"name: value"`.
fn format_line(name: &String, value: &String) -> (r: String)
    ensures
        r@ == header_line(name@, value@),
{
    let mut line = name.clone();
    line.append(": ");
    line.append(value.as_str());
    line
}

/// Installs the formatted header lines of a mapping on the transport handle,
/// replacing any previously installed list, in one engine call. An absent
/// mapping is a no-op that leaves the handle untouched. On failure the error
/// names the offending line (its key and value) where one line was refused,
/// and always carries the engine's description as its cause.
#[verifier::rlimit(60)]
pub fn configure_headers(handle: &mut curl::easy::Easy, headers: Option<&HeaderMap>) -> (r: Result<
    (),
    RelayError,
>)
    ensures
        match headers {
            Option::None => r is Ok && *final(handle) == *old(handle),
            Option::Some(m) => {
                &&& (r is Ok ==> all_lines_ok(emitted_lines(m@)) && installed_headers(
                    *final(handle),
                ) == emitted_lines(m@))
                &&& (!all_lines_ok(emitted_lines(m@)) ==> r is Err)
                &&& (r is Err ==> r->Err_0 is Network && r->Err_0->Network_cause is Some)
                &&& (r is Err && !all_lines_ok(emitted_lines(m@)) ==> exists|k: int|
                    {
                        &&& 0 <= k < emitted_lines(m@).len()
                        &&& !line_ok(#[trigger] emitted_lines(m@)[k])
                        &&& (forall|k2: int| 0 <= k2 < k ==> line_ok(#[trigger] emitted_lines(m@)[k2]))
                        &&& contains_seq(r->Err_0->Network_message@, emitted_lines(m@)[k])
                    })
            },
        },
{
    let m = match headers {
        Option::None => {
            return Result::Ok(());
        },
        Option::Some(m) => m,
    };
    let mut list = list_new();
    let n = m.entries.len();
    let mut i: usize = 0;
    while i < n
        invariant
            headers == Option::Some(m),
            n == m.entries.len(),
            0 <= i <= n,
            list_lines(list) == emitted_lines(m@.take(i as int)),
            all_lines_ok(emitted_lines(m@.take(i as int))),
        decreases n - i,
    {
        let entry = &m.entries[i];
        let vn = entry.values.len();
        let mut j: usize = 0;
        while j < vn
            invariant
                headers == Option::Some(m),
                n == m.entries.len(),
                0 <= i < n,
                entry == m.entries@[i as int],
                vn == entry.values.len(),
                0 <= j <= vn,
                list_lines(list) == emitted_lines(m@.take(i as int)) + Seq::new(
                    j as nat,
                    |k: int| header_line(entry.name@, entry.values@[k]@),
                ),
                all_lines_ok(list_lines(list)),
                decreases vn - j,
        {
            let line = format_line(&entry.name, &entry.values[j]);
            let ghost pre = list_lines(list);
            match list_append(&mut list, line.as_str()) {
                Result::Ok(()) => {
                    proof {
                        assert(list_lines(list) =~= emitted_lines(m@.take(i as int)) + Seq::new(
                            (j + 1) as nat,
                            |k: int| header_line(entry.name@, entry.values@[k]@),
                        ));
                    }
                },
                Result::Err(e) => {
                    let cause = curl_error_text(&e);
                    let mut msg = String::from_str("failed to append header line ");
                    msg.append(line.as_str());
                    proof {
                        let iv = i as int;
                        assert(m@[iv] == m.entries@[iv].deep_view());
                        assert(m@[iv].name == entry.name@);
                        assert(forall|k: int|
                            0 <= k < entry.values@.len() ==> #[trigger] m@[iv].values[k]
                                == entry.values@[k]@);
                        assert(Seq::new(
                            j as nat,
                            |k: int| header_line(entry.name@, entry.values@[k]@),
                        ) =~= Seq::new(
                            j as nat,
                            |k: int| header_line(m@[iv].name, m@[iv].values[k]),
                        ));
                        lemma_append_failure(m@, iv, j as int, list_lines(list), line@, msg@);
                    }
                    return Result::Err(
                        RelayError::Network { message: msg, cause: Option::Some(cause) },
                    );
                },
            }
            j += 1;
        }
        proof {
            lemma_emitted_take_snoc(m@, i as int);
            assert(Seq::new(vn as nat, |k: int| header_line(entry.name@, entry.values@[k]@))
                =~= entry_lines(m@[i as int]));
            assert(list_lines(list) =~= emitted_lines(m@.take(i as int + 1)));
        }
        i += 1;
    }
    proof {
        assert(m@.take(n as int) =~= m@);
    }
    match install_list(handle, list) {
        Result::Ok(()) => Result::Ok(()),
        Result::Err(e) => {
            let cause = curl_error_text(&e);
            Result::Err(
                RelayError::Network {
                    message: String::from_str("failed to install header list"),
                    cause: Option::Some(cause),
                },
            )
        },
    }
}

/// The singleton mapping `{"Content-Type": [content_type]}`.
pub open spec fn content_type_map(ct: Seq<char>) -> Seq<HeaderEntryV> {
    seq![HeaderEntryV { name: "Content-Type"@, values: seq![ct] }]
}

/// Law: the singleton content-type mapping emits exactly the one line
/// `"Content-Type: <value>"`, so configuring a bare content type installs the
/// same header state as configuring that mapping.
pub proof fn lemma_content_type_singleton(ct: Seq<char>)
    ensures
        emitted_lines(content_type_map(ct)) == seq![header_line("Content-Type"@, ct)],
{
    let entries = content_type_map(ct);
    let e = entries[0];
    assert(entries.drop_last() =~= Seq::<HeaderEntryV>::empty());
    assert(emitted_lines(Seq::<HeaderEntryV>::empty()) =~= Seq::<Seq<char>>::empty());
    assert(e.values[0] == ct);
    assert(entry_lines(e) =~= seq![header_line("Content-Type"@, ct)]);
    assert(emitted_lines(entries) =~= seq![header_line("Content-Type"@, ct)]);
}

/// Installs a single `Content-Type` header, exactly as `configure_headers`
/// would for the singleton mapping `{"Content-Type": [content_type]}`.
pub fn configure_content_type(handle: &mut curl::easy::Easy, content_type: &str) -> (r: Result<
    (),
    RelayError,
>)
    ensures
        r is Ok ==> all_lines_ok(emitted_lines(content_type_map(content_type@)))
            && installed_headers(*final(handle)) == emitted_lines(content_type_map(content_type@)),
        !all_lines_ok(emitted_lines(content_type_map(content_type@))) ==> r is Err,
        r is Err ==> r->Err_0 is Network && r->Err_0->Network_cause is Some,
{
    let mut values: Vec<String> = Vec::new();
    values.push(content_type.to_owned());
    let entry = HeaderEntry { name: String::from_str("Content-Type"), values };
    let mut entries: Vec<HeaderEntry> = Vec::new();
    entries.push(entry);
    let m = HeaderMap { entries };
    proof {
        assert(m@.len() == 1);
        assert(m@[0].name == "Content-Type"@);
        assert(m@[0].values =~= seq![content_type@]);
        assert(m@[0] == content_type_map(content_type@)[0]);
        assert(m@ =~= content_type_map(content_type@));
    }
    configure_headers(handle, Option::Some(&m))
}

} // verus!
