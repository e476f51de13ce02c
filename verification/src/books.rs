//! Read model over the external catalog schema: a `books` table
//! (`id`, `title`, `author_sort`, `uuid`, `path`) joined with a `data`
//! table (`book`, `format`, `name`), one row per available rendition per
//! book. The surrounding binary runs the read-only queries and hands the
//! plain row values in; assembling records, choosing the preferred source
//! format, deriving file paths and rendering the JSON replies are verified
//! here.

use vstd::prelude::*;

use crate::text::{
    dec_rep_int, i64_to_string, lower_seq, path_join, path_join_spec, str_eq, to_lowercase_ascii,
};

verus! {

/// One catalog record as the web layer sees it: the row of `books` plus
/// the list of format tags the `data` table holds for it.
pub struct Book {
    pub id: i64,
    pub title: String,
    pub author_sort: String,
    pub uuid: String,
    pub available_data: Vec<String>,
}

/// The fields of `s` split at every comma: the shape the catalog returns
/// a book's format list in (one concatenated column). An empty string is
/// one empty field; separators are never swallowed.
pub open spec fn split_commas(s: Seq<char>) -> Seq<Seq<char>>
    decreases s.len(),
{
    if s.len() == 0 {
        seq![s]
    } else if s[0] == ',' {
        seq![Seq::<char>::empty()] + split_commas(s.subrange(1, s.len() as int))
    } else {
        let rest = split_commas(s.subrange(1, s.len() as int));
        seq![seq![s[0]] + rest[0]] + rest.subrange(1, rest.len() as int)
    }
}

/// A split always yields at least one field.
pub proof fn lemma_split_commas_nonempty(s: Seq<char>)
    ensures
        split_commas(s).len() >= 1,
    decreases s.len(),
{
    if s.len() > 0 {
        lemma_split_commas_nonempty(s.subrange(1, s.len() as int));
    }
}

/// Splits `s` at every comma.
pub fn split_commas_exec(s: &str) -> (r: Vec<String>)
    ensures
        r.deep_view() == split_commas(s@),
{
    let n = s.unicode_len();
    let mut done: Vec<String> = Vec::new();
    let mut cur = String::new();
    let mut i: usize = 0;
    proof {
        lemma_split_commas_nonempty(s@);
        assert(s@.subrange(0, n as int) =~= s@);
        assert(done.deep_view() + prepend_field(cur@, split_commas(s@)) =~~= split_commas(s@));
    }
    while i < n
        invariant
            i <= n,
            n == s@.len(),
            split_commas(s@) == done.deep_view() + prepend_field(
                cur@,
                split_commas(s@.subrange(i as int, n as int)),
            ),
        decreases n - i,
    {
        let ghost rest = s@.subrange(i as int, n as int);
        let ghost rest1 = s@.subrange(i + 1, n as int);
        proof {
            lemma_split_commas_nonempty(rest1);
            assert(rest[0] == s@[i as int]);
            assert(rest.subrange(1, rest.len() as int) =~= rest1);
        }
        let c = s.get_char(i);
        if c == ',' {
            let ghost done0 = done.deep_view();
            let ghost curv = cur@;
            proof {
                assert(prepend_field(curv, split_commas(rest)) =~~= seq![curv] + prepend_field(
                    Seq::<char>::empty(),
                    split_commas(rest1),
                ));
                assert((done0 + (seq![curv] + prepend_field(
                    Seq::<char>::empty(),
                    split_commas(rest1),
                ))) =~~= (done0.push(curv) + prepend_field(
                    Seq::<char>::empty(),
                    split_commas(rest1),
                )));
            }
            done.push(cur);
            cur = String::new();
            proof {
                assert(done.deep_view() =~= done0.push(curv));
            }
        } else {
            proof {
                let restsplit = split_commas(rest);
                let rest1split = split_commas(rest1);
                assert(restsplit.subrange(1, restsplit.len() as int) =~= rest1split.subrange(
                    1,
                    rest1split.len() as int,
                ));
                assert(prepend_field(cur@, restsplit) =~~= prepend_field(
                    cur@.push(s@[i as int]),
                    rest1split,
                ));
            }
            crate::text::push_char(&mut cur, c);
        }
        i += 1;
    }
    let ghost done0 = done.deep_view();
    let ghost curv = cur@;
    proof {
        assert(s@.subrange(n as int, n as int) =~= Seq::<char>::empty());
        assert(prepend_field(curv, split_commas(s@.subrange(n as int, n as int)))
            =~~= seq![curv]);
    }
    done.push(cur);
    proof {
        assert(done.deep_view() =~= done0.push(curv));
        assert((done0 + seq![curv]) =~= done0.push(curv));
    }
    done
}

/// The current partial field `cur` joined onto the front of the fields
/// still to come: `cur` extends the first of them.
pub open spec fn prepend_field(cur: Seq<char>, fields: Seq<Seq<char>>) -> Seq<Seq<char>>
    recommends
        fields.len() >= 1,
{
    seq![cur + fields[0]] + fields.subrange(1, fields.len() as int)
}

/// Assembles one catalog record from the row the joined query returns;
/// `formats` is the concatenated format column, split at commas into the
/// record's list of available renditions.
pub fn book_from_row(
    id: i64,
    title: String,
    author_sort: String,
    uuid: String,
    formats: &str,
) -> (b: Book)
    ensures
        b.id == id,
        b.title == title,
        b.author_sort == author_sort,
        b.uuid == uuid,
        b.available_data.deep_view() == split_commas(formats@),
{
    Book { id, title, author_sort, uuid, available_data: split_commas_exec(formats) }
}

/// Rank of a format tag in the fixed preference order; unknown tags rank
/// behind every supported one.
pub open spec fn format_cost_spec(f: Seq<char>) -> nat {
    if f == "EPUB"@ {
        0
    } else if f == "HTMLZ"@ {
        1
    } else if f == "AZW3"@ {
        2
    } else if f == "AZW4"@ {
        3
    } else if f == "MOBI"@ {
        4
    } else if f == "PDF"@ {
        5
    } else {
        6
    }
}

/// Ranks a format tag in the fixed preference order.
pub fn format_cost(f: &str) -> (c: usize)
    ensures
        c == format_cost_spec(f@),
{
    if str_eq(f, "EPUB") {
        0
    } else if str_eq(f, "HTMLZ") {
        1
    } else if str_eq(f, "AZW3") {
        2
    } else if str_eq(f, "AZW4") {
        3
    } else if str_eq(f, "MOBI") {
        4
    } else if str_eq(f, "PDF") {
        5
    } else {
        6
    }
}

/// One row of the join used to pick a conversion source: the book's
/// directory (`books.path`), the data file's base name (`data.name`) and
/// its format tag (`data.format`).
pub struct BookDataRow {
    pub path: String,
    pub name: String,
    pub format: String,
}

/// Picks the row whose format ranks best in the preference order: the
/// first row attaining the minimal cost, or `None` when there are no rows
/// (a book without any rendition on record).
pub fn select_preferred_row(rows: &Vec<BookDataRow>) -> (r: Option<usize>)
    ensures
        r is Some <==> rows@.len() > 0,
        match r {
            Some(i) => {
                &&& 0 <= i < rows@.len()
                &&& forall|k: int|
                    0 <= k < rows@.len() ==> format_cost_spec(#[trigger] rows@[k].format@)
                        >= format_cost_spec(rows@[i as int].format@)
                &&& forall|k: int|
                    0 <= k < i ==> format_cost_spec(#[trigger] rows@[k].format@)
                        > format_cost_spec(rows@[i as int].format@)
            },
            None => true,
        },
{
    if rows.len() == 0 {
        return None;
    }
    let mut best: usize = 0;
    let mut best_cost = format_cost(rows[0].format.as_str());
    let mut k: usize = 1;
    while k < rows.len()
        invariant
            1 <= k <= rows@.len(),
            0 <= best < k,
            best_cost == format_cost_spec(rows@[best as int].format@),
            forall|j: int|
                0 <= j < k ==> format_cost_spec(#[trigger] rows@[j].format@) >= best_cost,
            forall|j: int| 0 <= j < best ==> format_cost_spec(#[trigger] rows@[j].format@) > best_cost,
        decreases rows@.len() - k,
    {
        let c = format_cost(rows[k].format.as_str());
        if c < best_cost {
            best = k;
            best_cost = c;
        }
        k += 1;
    }
    Some(best)
}

/// The on-disk file name of one rendition: the base name, a dot, and the
/// format tag lower-cased — how the catalog names its data files.
pub fn data_file_name(name: &str, format: &str) -> (r: String)
    ensures
        r@ == name@ + "."@ + lower_seq(format@),
{
    let mut r = String::from_str(name);
    r.append(".");
    r.append(to_lowercase_ascii(format).as_str());
    r
}

/// The full path of one rendition's source file: the data root, the
/// book's directory, then the data file name.
pub fn resolve_data_path(data_path: &str, dirname: &str, name: &str, format: &str) -> (r: String)
    ensures
        r@ == path_join_spec(
            path_join_spec(data_path@, dirname@),
            name@ + "."@ + lower_seq(format@),
        ),
{
    let dir = path_join(data_path, dirname);
    let file = data_file_name(name, format);
    path_join(dir.as_str(), file.as_str())
}

/// The reader page's location for a book: the application prefix,
/// `/reader/`, then the book id in decimal.
pub fn reader_uri(app_prefix: &str, bookid: i64) -> (r: String)
    ensures
        r@ == app_prefix@ + "/reader/"@ + dec_rep_int(bookid as int),
{
    let mut r = String::from_str(app_prefix);
    r.append("/reader/");
    r.append(i64_to_string(bookid).as_str());
    r
}

/// The readiness reply sent to the web layer: a JSON object with the
/// readiness flag and the reader page's location.
pub fn reader_status_json(is_ready: bool, uri: &str) -> (r: String)
    ensures
        r@ == "{\"is_ready\": "@ + (if is_ready {
            "true"@
        } else {
            "false"@
        }) + ", \"uri\": \""@ + uri@ + "\"}"@,
{
    let mut r = String::from_str("{\"is_ready\": ");
    if is_ready {
        r.append("true");
    } else {
        r.append("false");
    }
    r.append(", \"uri\": \"");
    r.append(uri);
    r.append("\"}");
    r
}

/// The whole readiness reply for one book: the JSON object carrying the
/// readiness flag and the book's reader page location.
pub fn reader_status_reply(app_prefix: &str, bookid: i64, is_ready: bool) -> (r: String)
    ensures
        r@ == "{\"is_ready\": "@ + (if is_ready {
            "true"@
        } else {
            "false"@
        }) + ", \"uri\": \""@ + (app_prefix@ + "/reader/"@ + dec_rep_int(bookid as int))
            + "\"}"@,
{
    let uri = reader_uri(app_prefix, bookid);
    reader_status_json(is_ready, uri.as_str())
}

/// `items` joined with commas, in order.
pub open spec fn join_commas(items: Seq<Seq<char>>) -> Seq<char>
    decreases items.len(),
{
    if items.len() == 0 {
        Seq::<char>::empty()
    } else if items.len() == 1 {
        items[0]
    } else {
        items[0] + ","@ + join_commas(items.subrange(1, items.len() as int))
    }
}

/// Joining one more item appends it after a comma (or alone when it is
/// the first).
pub proof fn lemma_join_commas_snoc(items: Seq<Seq<char>>, x: Seq<char>)
    ensures
        join_commas(items.push(x)) == if items.len() == 0 {
            x
        } else {
            join_commas(items) + ","@ + x
        },
    decreases items.len(),
{
    if items.len() == 0 {
        assert(items.push(x)[0] == x);
    } else {
        lemma_join_commas_snoc(items.subrange(1, items.len() as int), x);
        assert(items.push(x).subrange(1, items.push(x).len() as int) =~= items.subrange(
            1,
            items.len() as int,
        ).push(x));
        if items.len() == 1 {
            assert(join_commas(items.push(x)) == items[0] + ","@ + x);
        }
    }
}

/// The book list reply: the already-serialized records joined with commas
/// inside one JSON array.
pub fn json_array(items: &Vec<String>) -> (r: String)
    ensures
        r@ == "["@ + join_commas(items.deep_view()) + "]"@,
{
    let ghost all = items.deep_view();
    let mut r = String::from_str("[");
    let mut i: usize = 0;
    proof {
        assert(all.subrange(0, 0) =~= Seq::<Seq<char>>::empty());
    }
    while i < items.len()
        invariant
            i <= items@.len(),
            all == items.deep_view(),
            all.len() == items@.len(),
            r@ == "["@ + join_commas(all.subrange(0, i as int)),
        decreases items@.len() - i,
    {
        if i > 0 {
            r.append(",");
        }
        r.append(items[i].as_str());
        proof {
            lemma_join_commas_snoc(all.subrange(0, i as int), all[i as int]);
            assert(all.subrange(0, i + 1 as int) =~= all.subrange(0, i as int).push(
                all[i as int],
            ));
        }
        i += 1;
    }
    r.append("]");
    proof {
        assert(all.subrange(0, all.len() as int) =~= all);
    }
    r
}

/// The read-only join that lists every book with its formats, grouped per
/// book — the shape of the external catalog schema this core relies on.
pub fn book_list_sql() -> (r: String)
    ensures
        r@
            == "\nSELECT books.id, title, author_sort, uuid, group_concat(data.format)\n  FROM books\n  INNER JOIN data WHERE data.book = books.id GROUP BY books.id"@,
{
    String::from_str(
        "\nSELECT books.id, title, author_sort, uuid, group_concat(data.format)\n  FROM books\n  INNER JOIN data WHERE data.book = books.id GROUP BY books.id",
    )
}

/// The read-only join that locates one book's data file of one format.
pub fn book_data_sql() -> (r: String)
    ensures
        r@
            == "\nSELECT books.title, books.path, data.name FROM books\n INNER JOIN data WHERE data.book = books.id\n   AND books.id = (:bookid)\n   AND data.format = (:datatype)"@,
{
    String::from_str(
        "\nSELECT books.title, books.path, data.name FROM books\n INNER JOIN data WHERE data.book = books.id\n   AND books.id = (:bookid)\n   AND data.format = (:datatype)",
    )
}

/// The read-only join that lists one book's available renditions, used to
/// pick the best conversion source.
pub fn reader_status_sql() -> (r: String)
    ensures
        r@
            == "\nSELECT books.path, data.name, data.format\nFROM books INNER JOIN data\nWHERE data.book = books.id AND books.id = (:bookid)"@,
{
    String::from_str(
        "\nSELECT books.path, data.name, data.format\nFROM books INNER JOIN data\nWHERE data.book = books.id AND books.id = (:bookid)",
    )
}

} // verus!
