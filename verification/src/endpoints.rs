//! The audio endpoint and encoding catalogues: parsing the worker's
//! `--list-endpoint` and `--list-encoding` output into plain lists, and the
//! lookups the front end makes against those lists. Running the worker to
//! obtain the text is the embedding program's work; it hands the lines in.

use vstd::prelude::*;
use vstd::string::*;

use crate::strutil::{
    contains_seq, contains_sub, find_space, find_space_from, find_sub, find_sub_from,
    lemma_find_space_from, lemma_find_sub_from, parse_u16, parse_u16_spec, skip_spaces_from_idx,
    skip_spaces_front, skip_stars_from_idx, skip_stars_front, str_eq, trim_spec, trim_str,
};

verus! {

/// An endpoint entry: whether it is the default, its identifier, its name.
pub type EndpointEntry = (bool, u16, String);

/// An encoding entry: its key and its description.
pub type EncodingEntry = (String, String);

pub open spec fn endpoint_views(s: Seq<EndpointEntry>) -> Seq<(bool, u16, Seq<char>)> {
    s.map_values(|t: EndpointEntry| (t.0, t.1, t.2@))
}

pub open spec fn encoding_views(s: Seq<EncodingEntry>) -> Seq<(Seq<char>, Seq<char>)> {
    s.map_values(|t: EncodingEntry| (t.0@, t.1@))
}

/// What one line of the `--list-endpoint` output yields. The header line and
/// empty lines yield nothing. A `*` after leading whitespace marks the
/// default entry and is stripped. The identifier is the text strictly
/// between the first `id:` and the next `id:` or the line end, which must
/// hold exactly one `name:`; what precedes that `name:` must parse as a
/// `u16` after trimming, and what follows it, trimmed, is the name.
pub open spec fn parse_endpoint_line_spec(line: Seq<char>) -> Option<(bool, u16, Seq<char>)> {
    if line.len() == 0 || line == "endpoint list:"@ {
        None
    } else {
        let t0 = skip_spaces_front(line, 0);
        let is_default = t0 < line.len() && line[t0] == '*';
        let c0 = if is_default {
            skip_spaces_front(line, skip_stars_front(line, t0))
        } else {
            t0
        };
        let clean = line.subrange(c0, line.len() as int);
        match find_sub_from(clean, "id:"@, 0) {
            Option::None => Option::None,
            Option::Some(k) => {
                let rest = clean.subrange(k + 3, clean.len() as int);
                let id_part = match find_sub_from(rest, "id:"@, 0) {
                    Option::Some(k2) => rest.subrange(0, k2),
                    Option::None => rest,
                };
                match find_sub_from(id_part, "name:"@, 0) {
                    Option::None => Option::None,
                    Option::Some(m) => {
                        let after = id_part.subrange(m + 5, id_part.len() as int);
                        if contains_seq(after, "name:"@) {
                            Option::None
                        } else {
                            match parse_u16_spec(trim_spec(id_part.subrange(0, m))) {
                                Option::None => Option::None,
                                Option::Some(id) => Option::Some((is_default, id, trim_spec(after))),
                            }
                        }
                    },
                }
            },
        }
    }
}

/// Parses one line of the `--list-endpoint` output.
pub fn parse_endpoint_line(line: &str) -> (r: Option<EndpointEntry>)
    ensures
        match r {
            Option::Some(t) => parse_endpoint_line_spec(line@) == Option::Some((t.0, t.1, t.2@)),
            Option::None => parse_endpoint_line_spec(line@) is None,
        },
{
    let n = line.unicode_len();
    if n == 0 {
        return None;
    }
    if str_eq(line, "endpoint list:") {
        return None;
    }
    let t0 = skip_spaces_from_idx(line, 0);
    let is_default = t0 < n && line.get_char(t0) == '*';
    let c0 = if is_default {
        let s1 = skip_stars_from_idx(line, t0);
        skip_spaces_from_idx(line, s1)
    } else {
        t0
    };
    let clean = line.substring_char(c0, n);
    match find_sub(clean, "id:") {
        None => None,
        Some(k) => {
            proof {
                reveal_strlit("id:");
                lemma_find_sub_from(clean@, "id:"@, 0);
            }
            let clen = clean.unicode_len();
            let rest = clean.substring_char(k + 3, clen);
            let rlen = rest.unicode_len();
            let id_end = match find_sub(rest, "id:") {
                Some(k2) => {
                    proof {
                        lemma_find_sub_from(rest@, "id:"@, 0);
                    }
                    k2
                },
                None => rlen,
            };
            let id_part = rest.substring_char(0, id_end);
            proof {
                assert(rest@.subrange(0, rlen as int) =~= rest@);
            }
            match find_sub(id_part, "name:") {
                None => None,
                Some(m) => {
                    proof {
                        reveal_strlit("name:");
                        lemma_find_sub_from(id_part@, "name:"@, 0);
                    }
                    let iplen = id_part.unicode_len();
                    let after = id_part.substring_char(m + 5, iplen);
                    if contains_sub(after, "name:") {
                        return None;
                    }
                    let id_str = trim_str(id_part.substring_char(0, m));
                    match parse_u16(id_str) {
                        None => None,
                        Some(id) => {
                            let name = trim_str(after).to_owned();
                            Some((is_default, id, name))
                        },
                    }
                },
            }
        },
    }
}

/// The entries the whole `--list-endpoint` output yields, first `i` lines.
pub open spec fn parse_endpoint_lines_prefix(lines: Seq<Seq<char>>, i: int) -> Seq<
    (bool, u16, Seq<char>),
>
    decreases i,
{
    if i <= 0 {
        Seq::empty()
    } else {
        parse_endpoint_lines_prefix(lines, i - 1) + match parse_endpoint_line_spec(
            lines[i - 1],
        ) {
            Option::Some(t) => seq![t],
            Option::None => Seq::empty(),
        }
    }
}

pub open spec fn parse_endpoint_list_spec(lines: Seq<Seq<char>>) -> Seq<(bool, u16, Seq<char>)> {
    parse_endpoint_lines_prefix(lines, lines.len() as int)
}

/// Parses the whole `--list-endpoint` output, given as its lines, keeping
/// each line's entry in order and dropping lines that yield none.
pub fn parse_endpoint_list(lines: &Vec<String>) -> (r: Vec<EndpointEntry>)
    ensures
        endpoint_views(r@) == parse_endpoint_list_spec(lines@.map_values(|l: String| l@)),
{
    let ghost views = lines@.map_values(|l: String| l@);
    let mut out: Vec<EndpointEntry> = Vec::new();
    let n = lines.len();
    let mut i: usize = 0;
    while i < n
        invariant
            n == lines@.len(),
            views == lines@.map_values(|l: String| l@),
            0 <= i <= n,
            endpoint_views(out@) == parse_endpoint_lines_prefix(views, i as int),
        decreases n - i,
    {
        let ghost before = endpoint_views(out@);
        match parse_endpoint_line(lines[i].as_str()) {
            Some(t) => {
                out.push(t);
                proof {
                    assert(endpoint_views(out@) =~= before + seq![
                        (parse_endpoint_line_spec(views[i as int])->0),
                    ]);
                }
            },
            None => {
                proof {
                    assert(before + Seq::<(bool, u16, Seq<char>)>::empty() =~= before);
                }
            },
        }
        i = i + 1;
    }
    out
}

/// What one line of the `--list-encoding` output yields: after trimming,
/// the header and empty lines yield nothing; otherwise the line splits at
/// its first whitespace into a key and a description, both trimmed, and the
/// entry stands only when both are non-empty.
pub open spec fn parse_encoding_line_spec(line: Seq<char>) -> Option<(Seq<char>, Seq<char>)> {
    let t = trim_spec(line);
    if t.len() == 0 || t == "encoding list:"@ {
        Option::None
    } else {
        match find_space_from(t, 0) {
            Option::None => Option::None,
            Option::Some(w) => {
                let key = trim_spec(t.subrange(0, w));
                let value = trim_spec(t.subrange(w + 1, t.len() as int));
                if key.len() == 0 || value.len() == 0 {
                    Option::None
                } else {
                    Option::Some((key, value))
                }
            },
        }
    }
}

/// Parses one line of the `--list-encoding` output.
pub fn parse_encoding_line(line: &str) -> (r: Option<EncodingEntry>)
    ensures
        match r {
            Option::Some(t) => parse_encoding_line_spec(line@) == Option::Some((t.0@, t.1@)),
            Option::None => parse_encoding_line_spec(line@) is None,
        },
{
    let t = trim_str(line);
    let tn = t.unicode_len();
    if tn == 0 {
        return None;
    }
    if str_eq(t, "encoding list:") {
        return None;
    }
    match find_space(t) {
        None => None,
        Some(w) => {
            proof {
                lemma_find_space_from(t@, 0);
            }
            let key = trim_str(t.substring_char(0, w));
            let value = trim_str(t.substring_char(w + 1, tn));
            if key.is_empty() || value.is_empty() {
                return None;
            }
            Some((key.to_owned(), value.to_owned()))
        },
    }
}

/// The entries the whole `--list-encoding` output yields, first `i` lines.
pub open spec fn parse_encoding_lines_prefix(lines: Seq<Seq<char>>, i: int) -> Seq<
    (Seq<char>, Seq<char>),
>
    decreases i,
{
    if i <= 0 {
        Seq::empty()
    } else {
        parse_encoding_lines_prefix(lines, i - 1) + match parse_encoding_line_spec(
            lines[i - 1],
        ) {
            Option::Some(t) => seq![t],
            Option::None => Seq::empty(),
        }
    }
}

pub open spec fn parse_encoding_list_spec(lines: Seq<Seq<char>>) -> Seq<(Seq<char>, Seq<char>)> {
    parse_encoding_lines_prefix(lines, lines.len() as int)
}

/// Parses the whole `--list-encoding` output, given as its lines.
pub fn parse_encoding_list(lines: &Vec<String>) -> (r: Vec<EncodingEntry>)
    ensures
        encoding_views(r@) == parse_encoding_list_spec(lines@.map_values(|l: String| l@)),
{
    let ghost views = lines@.map_values(|l: String| l@);
    let mut out: Vec<EncodingEntry> = Vec::new();
    let n = lines.len();
    let mut i: usize = 0;
    while i < n
        invariant
            n == lines@.len(),
            views == lines@.map_values(|l: String| l@),
            0 <= i <= n,
            encoding_views(out@) == parse_encoding_lines_prefix(views, i as int),
        decreases n - i,
    {
        let ghost before = encoding_views(out@);
        match parse_encoding_line(lines[i].as_str()) {
            Some(t) => {
                out.push(t);
                proof {
                    assert(encoding_views(out@) =~= before + seq![
                        (parse_encoding_line_spec(views[i as int])->0),
                    ]);
                }
            },
            None => {
                proof {
                    assert(before + Seq::<(Seq<char>, Seq<char>)>::empty() =~= before);
                }
            },
        }
        i = i + 1;
    }
    out
}

/// Index of the first entry flagged as the default, at or after `i`.
pub open spec fn find_default_from(s: Seq<(bool, u16, Seq<char>)>, i: int) -> Option<int>
    decreases s.len() - i,
{
    if i < 0 || i >= s.len() {
        None
    } else if s[i].0 {
        Some(i)
    } else {
        find_default_from(s, i + 1)
    }
}

/// Index of the first entry whose name equals `name`, at or after `i`.
pub open spec fn find_endpoint_name_from(
    s: Seq<(bool, u16, Seq<char>)>,
    name: Seq<char>,
    i: int,
) -> Option<int>
    decreases s.len() - i,
{
    if i < 0 || i >= s.len() {
        None
    } else if s[i].2 == name {
        Some(i)
    } else {
        find_endpoint_name_from(s, name, i + 1)
    }
}

/// Index of the first encoding whose description equals `name`, at or after
/// `i`.
pub open spec fn find_encoding_desc_from(
    s: Seq<(Seq<char>, Seq<char>)>,
    name: Seq<char>,
    i: int,
) -> Option<int>
    decreases s.len() - i,
{
    if i < 0 || i >= s.len() {
        None
    } else if s[i].1 == name {
        Some(i)
    } else {
        find_encoding_desc_from(s, name, i + 1)
    }
}

/// Index of the first encoding whose key equals `key`, at or after `i`.
pub open spec fn find_encoding_key_from(
    s: Seq<(Seq<char>, Seq<char>)>,
    key: Seq<char>,
    i: int,
) -> Option<int>
    decreases s.len() - i,
{
    if i < 0 || i >= s.len() {
        None
    } else if s[i].0 == key {
        Some(i)
    } else {
        find_encoding_key_from(s, key, i + 1)
    }
}

/// The first endpoint flagged as the default, if any.
pub fn get_default_endpoint(endpoints: &Vec<EndpointEntry>) -> (r: Option<EndpointEntry>)
    ensures
        match r {
            Option::Some(t) => {
                &&& find_default_from(endpoint_views(endpoints@), 0) is Some
                &&& {
                    let k = find_default_from(endpoint_views(endpoints@), 0)->0;
                    (t.0, t.1, t.2@) == endpoint_views(endpoints@)[k]
                }
            },
            Option::None => find_default_from(endpoint_views(endpoints@), 0) is None,
        },
{
    let ghost views = endpoint_views(endpoints@);
    let n = endpoints.len();
    let mut i: usize = 0;
    while i < n
        invariant
            n == endpoints@.len(),
            views == endpoint_views(endpoints@),
            0 <= i <= n,
            find_default_from(views, 0) == find_default_from(views, i as int),
        decreases n - i,
    {
        if endpoints[i].0 {
            let t = &endpoints[i];
            return Some((t.0, t.1, t.2.clone()));
        }
        i = i + 1;
    }
    None
}

/// The identifier of the first endpoint named `name`, if any.
pub fn get_endpoint_id(endpoints: &Vec<EndpointEntry>, name: &String) -> (r: Option<u32>)
    ensures
        match r {
            Option::Some(id) => {
                &&& find_endpoint_name_from(endpoint_views(endpoints@), name@, 0) is Some
                &&& {
                    let k = find_endpoint_name_from(endpoint_views(endpoints@), name@, 0)->0;
                    id == endpoint_views(endpoints@)[k].1 as u32
                }
            },
            Option::None => find_endpoint_name_from(endpoint_views(endpoints@), name@, 0) is None,
        },
{
    let ghost views = endpoint_views(endpoints@);
    let n = endpoints.len();
    let mut i: usize = 0;
    while i < n
        invariant
            n == endpoints@.len(),
            views == endpoint_views(endpoints@),
            0 <= i <= n,
            find_endpoint_name_from(views, name@, 0) == find_endpoint_name_from(
                views,
                name@,
                i as int,
            ),
        decreases n - i,
    {
        if str_eq(endpoints[i].2.as_str(), name.as_str()) {
            return Some(endpoints[i].1 as u32);
        }
        i = i + 1;
    }
    None
}

/// The key of the first encoding described as `name`, if any.
pub fn get_encoding_key(encodings: &Vec<EncodingEntry>, name: &String) -> (r: Option<String>)
    ensures
        match r {
            Option::Some(key) => {
                &&& find_encoding_desc_from(encoding_views(encodings@), name@, 0) is Some
                &&& {
                    let k = find_encoding_desc_from(encoding_views(encodings@), name@, 0)->0;
                    key@ == encoding_views(encodings@)[k].0
                }
            },
            Option::None => find_encoding_desc_from(encoding_views(encodings@), name@, 0) is None,
        },
{
    let ghost views = encoding_views(encodings@);
    let n = encodings.len();
    let mut i: usize = 0;
    while i < n
        invariant
            n == encodings@.len(),
            views == encoding_views(encodings@),
            0 <= i <= n,
            find_encoding_desc_from(views, name@, 0) == find_encoding_desc_from(
                views,
                name@,
                i as int,
            ),
        decreases n - i,
    {
        if str_eq(encodings[i].1.as_str(), name.as_str()) {
            return Some(encodings[i].0.clone());
        }
        i = i + 1;
    }
    None
}

/// The first encoding keyed `default`, if any.
pub fn get_default_encoding(encodings: &Vec<EncodingEntry>) -> (r: Option<EncodingEntry>)
    ensures
        match r {
            Option::Some(t) => {
                &&& find_encoding_key_from(encoding_views(encodings@), "default"@, 0) is Some
                &&& {
                    let k = find_encoding_key_from(encoding_views(encodings@), "default"@, 0)->0;
                    (t.0@, t.1@) == encoding_views(encodings@)[k]
                }
            },
            Option::None => find_encoding_key_from(encoding_views(encodings@), "default"@, 0)
                is None,
        },
{
    let ghost views = encoding_views(encodings@);
    let n = encodings.len();
    let mut i: usize = 0;
    while i < n
        invariant
            n == encodings@.len(),
            views == encoding_views(encodings@),
            0 <= i <= n,
            find_encoding_key_from(views, "default"@, 0) == find_encoding_key_from(
                views,
                "default"@,
                i as int,
            ),
        decreases n - i,
    {
        if str_eq(encodings[i].0.as_str(), "default") {
            let t = &encodings[i];
            return Some((t.0.clone(), t.1.clone()));
        }
        i = i + 1;
    }
    None
}

/// Position of the endpoint named `name` in the dropdown: the index of its
/// first occurrence. The name must be present — the caller guarantees it,
/// as the list populated the dropdown.
pub fn get_endpoint_position_in_dropdown(endpoints: &Vec<EndpointEntry>, name: &String) -> (r: u32)
    requires
        find_endpoint_name_from(endpoint_views(endpoints@), name@, 0) is Some,
        endpoints@.len() <= u32::MAX,
    ensures
        Some(r as int) == find_endpoint_name_from(endpoint_views(endpoints@), name@, 0),
{
    let ghost views = endpoint_views(endpoints@);
    let n = endpoints.len();
    let mut i: usize = 0;
    while i < n
        invariant
            n == endpoints@.len(),
            n <= u32::MAX,
            views == endpoint_views(endpoints@),
            0 <= i <= n,
            find_endpoint_name_from(views, name@, 0) == find_endpoint_name_from(
                views,
                name@,
                i as int,
            ),
            find_endpoint_name_from(views, name@, 0) is Some,
        decreases n - i,
    {
        if str_eq(endpoints[i].2.as_str(), name.as_str()) {
            return i as u32;
        }
        i = i + 1;
    }
    proof {
        assert(find_endpoint_name_from(views, name@, i as int) is None);
    }
    0
}

/// Position of the encoding described as `name` in the dropdown: the index
/// of its first occurrence. The name must be present.
pub fn get_encoding_position_in_dropdown(encodings: &Vec<EncodingEntry>, name: &String) -> (r: u32)
    requires
        find_encoding_desc_from(encoding_views(encodings@), name@, 0) is Some,
        encodings@.len() <= u32::MAX,
    ensures
        Some(r as int) == find_encoding_desc_from(encoding_views(encodings@), name@, 0),
{
    let ghost views = encoding_views(encodings@);
    let n = encodings.len();
    let mut i: usize = 0;
    while i < n
        invariant
            n == encodings@.len(),
            n <= u32::MAX,
            views == encoding_views(encodings@),
            0 <= i <= n,
            find_encoding_desc_from(views, name@, 0) == find_encoding_desc_from(
                views,
                name@,
                i as int,
            ),
            find_encoding_desc_from(views, name@, 0) is Some,
        decreases n - i,
    {
        if str_eq(encodings[i].1.as_str(), name.as_str()) {
            return i as u32;
        }
        i = i + 1;
    }
    proof {
        assert(find_encoding_desc_from(views, name@, i as int) is None);
    }
    0
}

} // verus!
