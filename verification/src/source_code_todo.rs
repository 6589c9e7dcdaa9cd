use crate::text::{decimal, push_decimal};
use vstd::prelude::*;
use vstd::string::StringSliceAdditionalSpecFns;
use vstd::utf8::{decode_utf8, encode_utf8, is_char_boundary};

verus! {

broadcast use vstd::utf8::encode_utf8_decode_utf8, vstd::utf8::encode_utf8_valid_utf8;

/// What `str::to_lowercase` makes of a string's characters.
pub uninterp spec fn lowercase_chars(s: Seq<char>) -> Seq<char>;

/// `str::to_lowercase` (std): the string with every character replaced by its
/// Unicode lowercase mapping. The contract only names the result; the
/// Unicode tables are not restated here.
#[verifier::external_body]
fn to_lowercase(s: &str) -> (r: String)
    ensures
        r@ == lowercase_chars(s@),
{
    s.to_lowercase()
}

/// `needle` occurs in `hay` at byte `i`.
pub open spec fn occurs_at(hay: Seq<u8>, needle: Seq<u8>, i: int) -> bool {
    &&& 0 <= i
    &&& i + needle.len() <= hay.len()
    &&& hay.subrange(i, i + needle.len()) == needle
}

/// The first position at or after `start` where `needle` occurs in `hay`.
pub open spec fn find_from(hay: Seq<u8>, needle: Seq<u8>, start: int) -> Option<int>
    decreases hay.len() - start,
{
    if start < 0 || start + needle.len() > hay.len() {
        None
    } else if occurs_at(hay, needle, start) {
        Some(start)
    } else {
        proof {
            if needle.len() == 0 {
                assert(hay.subrange(start, start + needle.len()) =~= needle);
            }
        }
        find_from(hay, needle, start + 1)
    }
}

proof fn lemma_find_from_occurs(hay: Seq<u8>, needle: Seq<u8>, start: int)
    ensures
        find_from(hay, needle, start) matches Some(i) ==> occurs_at(hay, needle, i) && start <= i,
    decreases hay.len() - start,
{
    if start < 0 || start + needle.len() > hay.len() {
    } else if occurs_at(hay, needle, start) {
    } else {
        if needle.len() == 0 {
            assert(hay.subrange(start, start + needle.len()) =~= needle);
        }
        lemma_find_from_occurs(hay, needle, start + 1);
    }
}

/// The first position where `needle` occurs in `hay`.
pub open spec fn find_bytes_spec(hay: Seq<u8>, needle: Seq<u8>) -> Option<int> {
    find_from(hay, needle, 0)
}

/// The number of quote characters (`"` and `'`) in `s`.
pub open spec fn quote_count(s: Seq<char>) -> nat
    decreases s.len(),
{
    if s.len() == 0 {
        0
    } else {
        quote_count(s.drop_last()) + if s.last() == '"' || s.last() == '\'' {
            1nat
        } else {
            0nat
        }
    }
}

/// `s` without a leading `c`, if it starts with one.
pub open spec fn strip_char(s: Seq<char>, c: char) -> Seq<char> {
    if s.len() > 0 && s[0] == c {
        s.drop_first()
    } else {
        s
    }
}

/// The UTF-8 bytes of a line.
pub open spec fn line_bytes(line: Seq<char>) -> Seq<u8> {
    encode_utf8(line)
}

/// The UTF-8 bytes of the lowercase line, in which the keywords are searched.
pub open spec fn lowercase_bytes(line: Seq<char>) -> Seq<u8> {
    encode_utf8(lowercase_chars(line))
}

/// The characters of the line before byte `i`.
pub open spec fn chars_before(line: Seq<char>, i: int) -> Seq<char> {
    decode_utf8(line_bytes(line).subrange(0, i))
}

/// The characters of the line from byte `i` on.
pub open spec fn chars_from(line: Seq<char>, i: int) -> Seq<char> {
    decode_utf8(line_bytes(line).subrange(i, line_bytes(line).len() as int))
}

/// A comment keyword found at byte `i` is outside a string literal: the
/// quotes before it are balanced.
pub open spec fn outside_quotes(line: Seq<char>, i: int) -> bool {
    quote_count(chars_before(line, i)) % 2 == 0
}

/// The todo that a comment keyword (such as `// todo`) announces: the rest of
/// the line after the keyword and the one byte that follows it, without a
/// leading `:` and then without a leading space; and the column (the byte
/// position of the keyword plus one).
pub open spec fn comment_todo(line: Seq<char>, keyword: Seq<u8>) -> Option<(Seq<char>, int)> {
    match find_bytes_spec(lowercase_bytes(line), keyword) {
        None => None,
        Some(i) => if outside_quotes(line, i) {
            let rest = chars_from(line, i + keyword.len() + 1);
            Some((strip_char(strip_char(rest, ':'), ' '), i + 1))
        } else {
            None
        },
    }
}

/// The search for a comment keyword takes only whole characters of the line:
/// the slices it makes start and end inside the line, on character
/// boundaries.
pub open spec fn comment_search_in_bounds(line: Seq<char>, keyword: Seq<u8>) -> bool {
    match find_bytes_spec(lowercase_bytes(line), keyword) {
        None => true,
        Some(i) => {
            &&& is_char_boundary(line_bytes(line), i)
            &&& outside_quotes(line, i) ==> is_char_boundary(
                line_bytes(line),
                i + keyword.len() + 1,
            )
        },
    }
}

/// The bytes of `todo!(`.
pub open spec fn macro_keyword() -> Seq<u8> {
    seq![116u8, 111u8, 100u8, 111u8, 33u8, 40u8]
}

/// The todo that a `todo!(` macro announces: the string literal that is its
/// first argument (up to the next `"`), or nothing; and the column.
pub open spec fn macro_todo(line: Seq<char>) -> Option<(Seq<char>, int)> {
    match find_bytes_spec(lowercase_bytes(line), macro_keyword()) {
        None => None,
        Some(i) => if outside_quotes(line, i) {
            let arg = i + 6;
            let name = if arg < line.len() && line[arg] == '"' {
                let start = arg + 1;
                let rest = line_bytes(line).subrange(start, line_bytes(line).len() as int);
                let end = match find_bytes_spec(rest, seq![34u8]) {
                    Some(j) => start + j,
                    None => start,
                };
                decode_utf8(line_bytes(line).subrange(start, end))
            } else {
                Seq::empty()
            };
            Some((name, i + 1))
        } else {
            None
        },
    }
}

/// The search for `todo!(` takes only whole characters of the line.
pub open spec fn macro_search_in_bounds(line: Seq<char>) -> bool {
    match find_bytes_spec(lowercase_bytes(line), macro_keyword()) {
        None => true,
        Some(i) => {
            &&& is_char_boundary(line_bytes(line), i)
            &&& (outside_quotes(line, i) && i + 6 < line.len() && line[i + 6] == '"')
                ==> is_char_boundary(line_bytes(line), i + 7)
        },
    }
}

pub open spec fn keyword_slash_space() -> Seq<u8> {
    seq![47u8, 47u8, 32u8, 116u8, 111u8, 100u8, 111u8]
}

pub open spec fn keyword_slash() -> Seq<u8> {
    seq![47u8, 47u8, 116u8, 111u8, 100u8, 111u8]
}

pub open spec fn keyword_hash_space() -> Seq<u8> {
    seq![35u8, 32u8, 116u8, 111u8, 100u8, 111u8]
}

pub open spec fn keyword_hash() -> Seq<u8> {
    seq![35u8, 116u8, 111u8, 100u8, 111u8]
}

/// Every search made on the line stays on whole characters of it; all five
/// searches are made, whichever one finds a todo.
pub open spec fn line_searchable(line: Seq<char>) -> bool {
    &&& comment_search_in_bounds(line, keyword_slash_space())
    &&& comment_search_in_bounds(line, keyword_slash())
    &&& comment_search_in_bounds(line, keyword_hash_space())
    &&& comment_search_in_bounds(line, keyword_hash())
    &&& macro_search_in_bounds(line)
}

/// The todo of a source code line, if any: the first of `// todo`,
/// `//todo`, `# todo`, `#todo` (in any case) and a `todo!(` macro that finds
/// one.
pub open spec fn line_todo(line: Seq<char>) -> Option<(Seq<char>, int)> {
    let a = comment_todo(line, keyword_slash_space());
    let b = comment_todo(line, keyword_slash());
    let c = comment_todo(line, keyword_hash_space());
    let d = comment_todo(line, keyword_hash());
    let e = macro_todo(line);
    if a is Some {
        a
    } else if b is Some {
        b
    } else if c is Some {
        c
    } else if d is Some {
        d
    } else {
        e
    }
}

/// Whether `needle` occurs in `hay` at byte `i`.
fn occurs_at_exec(hay: &[u8], needle: &[u8], i: usize) -> (r: bool)
    requires
        i + needle@.len() <= hay@.len(),
    ensures
        r == occurs_at(hay@, needle@, i as int),
{
    let hay_len = hay.len();
    let mut k: usize = 0;
    while k < needle.len()
        invariant
            hay_len == hay@.len(),
            i + needle@.len() <= hay@.len(),
            k <= needle@.len(),
            forall|j: int| 0 <= j < k ==> hay@[i + j] == needle@[j],
        decreases needle@.len() - k,
    {
        if hay[i + k] != needle[k] {
            proof {
                assert(hay@.subrange(i as int, i + needle@.len())[k as int] != needle@[k as int]);
            }
            return false;
        }
        k = k + 1;
    }
    proof {
        assert(hay@.subrange(i as int, i + needle@.len()) =~= needle@);
    }
    true
}

/// The first byte position where `needle` occurs in `hay`.
fn find_bytes(hay: &[u8], needle: &[u8]) -> (r: Option<usize>)
    ensures
        match r {
            Some(i) => find_bytes_spec(hay@, needle@) == Some(i as int),
            None => find_bytes_spec(hay@, needle@) is None,
        },
{
    if needle.len() > hay.len() {
        return None;
    }
    let last = hay.len() - needle.len();
    let mut i: usize = 0;
    while i < last
        invariant
            last == hay@.len() - needle@.len(),
            i <= last,
            find_from(hay@, needle@, 0) == find_from(hay@, needle@, i as int),
        decreases last - i,
    {
        if occurs_at_exec(hay, needle, i) {
            return Some(i);
        }
        i = i + 1;
    }
    if occurs_at_exec(hay, needle, last) {
        Some(last)
    } else {
        proof {
            assert(find_from(hay@, needle@, last + 1) is None);
        }
        None
    }
}

/// The number of quote characters in `s`.
fn count_quotes(s: &str) -> (r: usize)
    ensures
        r == quote_count(s@),
{
    let n = s.unicode_len();
    let mut count: usize = 0;
    let mut k: usize = 0;
    while k < n
        invariant
            n == s@.len(),
            k <= n,
            count == quote_count(s@.subrange(0, k as int)),
            count <= k,
        decreases n - k,
    {
        let c = s.get_char(k);
        proof {
            assert(s@.subrange(0, k + 1).drop_last() =~= s@.subrange(0, k as int));
        }
        if c == '"' || c == '\'' {
            count = count + 1;
        }
        k = k + 1;
    }
    proof {
        assert(s@.subrange(0, n as int) =~= s@);
    }
    count
}

/// The characters of `line` before byte `i`.
fn str_before(line: &str, i: usize) -> (r: &str)
    requires
        is_char_boundary(line.spec_bytes(), i as int),
    ensures
        r@ == decode_utf8(line.spec_bytes().subrange(0, i as int)),
{
    line.split_at(i).0
}

/// The characters of `line` from byte `i` on.
fn str_from(line: &str, i: usize) -> (r: &str)
    requires
        is_char_boundary(line.spec_bytes(), i as int),
    ensures
        r@ == decode_utf8(line.spec_bytes().subrange(i as int, line.spec_bytes().len() as int)),
        r.spec_bytes() == line.spec_bytes().subrange(i as int, line.spec_bytes().len() as int),
{
    line.split_at(i).1
}

/// `s` without a leading `c`.
fn strip_char_exec(s: &str, c: char) -> (r: &str)
    ensures
        r@ == strip_char(s@, c),
{
    let n = s.unicode_len();
    if n > 0 && s.get_char(0) == c {
        s.substring_char(1, n)
    } else {
        s
    }
}

/// The todo announced by a comment keyword in the line.
fn search_todo_comment(line: &str, low: &[u8], keyword: &str) -> (r: Option<(String, usize)>)
    requires
        low@ == lowercase_bytes(line@),
        comment_search_in_bounds(line@, keyword.spec_bytes()),
    ensures
        match comment_todo(line@, keyword.spec_bytes()) {
            Some((name, column)) => r matches Some((n, c)) && n@ == name && c == column,
            None => r is None,
        },
{
    let line_len = line.as_bytes().len();
    match find_bytes(low, keyword.as_bytes()) {
        None => None,
        Some(index) => {
            let before = str_before(line, index);
            if count_quotes(before) % 2 == 0 {
                proof {
                    assert(keyword.spec_bytes().len() <= low@.len());
                    vstd::utf8::valid_utf8_split(line.spec_bytes(), index as int);
                }
                let rest = str_from(line, index + keyword.len() + 1);
                let name = strip_char_exec(strip_char_exec(rest, ':'), ' ');
                Some((name.to_string(), index + 1))
            } else {
                None
            }
        },
    }
}


/// The todo announced by a `todo!(` macro in the line.
fn search_todo_macro(line: &str, low: &[u8]) -> (r: Option<(String, usize)>)
    requires
        low@ == lowercase_bytes(line@),
        macro_search_in_bounds(line@),
    ensures
        match macro_todo(line@) {
            Some((name, column)) => r matches Some((n, c)) && n@ == name && c == column,
            None => r is None,
        },
{
    let line_len = line.as_bytes().len();
    let low_len = low.len();
    let keyword = "todo!(";
    proof {
        lemma_keyword_bytes();
    }
    match find_bytes(low, keyword.as_bytes()) {
        None => None,
        Some(index) => {
            let before = str_before(line, index);
            if count_quotes(before) % 2 == 0 {
                proof {
                    lemma_find_from_occurs(low@, keyword.spec_bytes(), 0);
                }
                let arg = index + 6;
                let mut name = String::new();
                if arg < line.unicode_len() && line.get_char(arg) == '"' {
                    let start = arg + 1;
                    let rest = str_from(line, start);
                    let quote = "\"";
                    proof {
                        vstd::utf8::valid_utf8_split(line.spec_bytes(), start as int);
                    }
                    let end = match find_bytes(rest.as_bytes(), quote.as_bytes()) {
                        Some(j) => j,
                        None => 0,
                    };
                    proof {
                        lemma_find_from_occurs(rest.spec_bytes(), quote.spec_bytes(), 0);
                        if end > 0 {
                            assert(rest.spec_bytes().subrange(end as int, end + 1) == seq![34u8]);
                            assert(rest.spec_bytes()[end as int] == 34u8);
                            vstd::utf8::is_char_boundary_iff_not_is_continuation_byte(
                                rest.spec_bytes(),
                                end as int,
                            );
                        }
                        assert(rest.spec_bytes().subrange(0, end as int) =~= line.spec_bytes().subrange(
                            start as int,
                            start + end,
                        ));
                    }
                    name = str_before(rest, end).to_string();
                }
                proof {
                    reveal_strlit("");
                }
                Some((name, index + 1))
            } else {
                None
            }
        },
    }
}

proof fn lemma_ascii_literal_bytes(s: &str, expected: Seq<u8>)
    requires
        s@.len() == expected.len(),
        forall|i: int| 0 <= i < s@.len() ==> '\0' <= #[trigger] s@[i] <= '\u{7f}',
        forall|i: int| 0 <= i < s@.len() ==> #[trigger] s@[i] as u8 == expected[i],
    ensures
        s.spec_bytes() == expected,
{
    assert(vstd::utf8::is_ascii_chars(s@));
    vstd::utf8::is_ascii_chars_encode_utf8(s@);
    assert(s.spec_bytes() =~= expected);
}

proof fn lemma_keyword_bytes()
    ensures
        "// todo".spec_bytes() == keyword_slash_space(),
        "//todo".spec_bytes() == keyword_slash(),
        "# todo".spec_bytes() == keyword_hash_space(),
        "#todo".spec_bytes() == keyword_hash(),
        "todo!(".spec_bytes() == macro_keyword(),
        "\"".spec_bytes() == seq![34u8],
{
    reveal_strlit("// todo");
    reveal_strlit("//todo");
    reveal_strlit("# todo");
    reveal_strlit("#todo");
    reveal_strlit("todo!(");
    reveal_strlit("\"");
    lemma_ascii_literal_bytes("// todo", keyword_slash_space());
    lemma_ascii_literal_bytes("//todo", keyword_slash());
    lemma_ascii_literal_bytes("# todo", keyword_hash_space());
    lemma_ascii_literal_bytes("#todo", keyword_hash());
    lemma_ascii_literal_bytes("todo!(", macro_keyword());
    lemma_ascii_literal_bytes("\"", seq![34u8]);
}

/// Finds the todo of a source code line: a comment `// todo`, `//todo`,
/// `# todo` or `#todo` in any case and outside string literals, or a
/// `todo!("...")` macro. Returns the todo's name and the column where it
/// starts (one-based, in bytes).
pub fn import_source_code_comment_from_line(line: String) -> (r: Option<(String, usize)>)
    requires
        line_searchable(line@),
    ensures
        match line_todo(line@) {
            Some((name, column)) => r matches Some((n, c)) && n@ == name && c == column,
            None => r is None,
        },
{
    proof {
        lemma_keyword_bytes();
    }
    let line = line.as_str();
    let low = to_lowercase(line);
    let low_bytes = low.as_str().as_bytes();
    let a = search_todo_comment(line, low_bytes, "// todo");
    let b = search_todo_comment(line, low_bytes, "//todo");
    let c = search_todo_comment(line, low_bytes, "# todo");
    let d = search_todo_comment(line, low_bytes, "#todo");
    let e = search_todo_macro(line, low_bytes);
    if a.is_some() {
        a
    } else if b.is_some() {
        b
    } else if c.is_some() {
        c
    } else if d.is_some() {
        d
    } else {
        e
    }
}


/// Whether the search for `keyword` stays on whole characters of the line.
fn comment_search_in_bounds_exec(line: &str, low: &[u8], keyword: &str) -> (r: bool)
    requires
        low@ == lowercase_bytes(line@),
    ensures
        r == comment_search_in_bounds(line@, keyword.spec_bytes()),
{
    let line_len = line.as_bytes().len();
    let low_len = low.len();
    match find_bytes(low, keyword.as_bytes()) {
        None => true,
        Some(index) => {
            proof {
                lemma_find_from_occurs(low@, keyword.spec_bytes(), 0);
            }
            if !line.is_char_boundary(index) {
                false
            } else if count_quotes(str_before(line, index)) % 2 == 0 {
                let end = index + keyword.len();
                if end < line_len {
                    line.is_char_boundary(end + 1)
                } else {
                    false
                }
            } else {
                true
            }
        },
    }
}

/// Whether the search for `todo!(` stays on whole characters of the line.
fn macro_search_in_bounds_exec(line: &str, low: &[u8]) -> (r: bool)
    requires
        low@ == lowercase_bytes(line@),
    ensures
        r == macro_search_in_bounds(line@),
{
    proof {
        lemma_keyword_bytes();
    }
    let line_len = line.as_bytes().len();
    let low_len = low.len();
    match find_bytes(low, "todo!(".as_bytes()) {
        None => true,
        Some(index) => {
            proof {
                lemma_find_from_occurs(low@, macro_keyword(), 0);
            }
            if !line.is_char_boundary(index) {
                false
            } else if count_quotes(str_before(line, index)) % 2 == 0 && index + 6
                < line.unicode_len() && line.get_char(index + 6) == '"' {
                if index + 6 < line_len {
                    line.is_char_boundary(index + 7)
                } else {
                    false
                }
            } else {
                true
            }
        },
    }
}

/// Whether every search that `import_source_code_comment_from_line` makes
/// on the line stays on whole characters of it.
pub fn line_is_searchable(line: &str) -> (r: bool)
    ensures
        r == line_searchable(line@),
{
    proof {
        lemma_keyword_bytes();
    }
    let low = to_lowercase(line);
    let low_bytes = low.as_str().as_bytes();
    comment_search_in_bounds_exec(line, low_bytes, "// todo") && comment_search_in_bounds_exec(
        line,
        low_bytes,
        "//todo",
    ) && comment_search_in_bounds_exec(line, low_bytes, "# todo")
        && comment_search_in_bounds_exec(line, low_bytes, "#todo") && macro_search_in_bounds_exec(
        line,
        low_bytes,
    )
}

/// Where a todo was found: `source:line:column`.
pub open spec fn todo_location(source: Seq<char>, line_number: nat, column: nat) -> Seq<char> {
    source + seq![':'] + decimal(line_number) + seq![':'] + decimal(column)
}

/// The todos of the first `n` lines of a source file, each with its name and
/// its location (lines counted from one).
pub open spec fn todos_of_lines(source: Seq<char>, lines: Seq<Seq<char>>, n: nat) -> Seq<
    (Seq<char>, Seq<char>),
>
    decreases n,
{
    if n == 0 || n > lines.len() {
        Seq::empty()
    } else {
        let previous = todos_of_lines(source, lines, (n - 1) as nat);
        match line_todo(lines[n - 1]) {
            Some((name, column)) => previous.push((name, todo_location(source, n, column as nat))),
            None => previous,
        }
    }
}

/// The todos found in the lines of a source file, in line order: each one's
/// name and its location `source:line:column`.
pub fn import_source_code_todos_from_lines(source: &str, lines: &Vec<String>) -> (r: Vec<
    (String, String),
>)
    requires
        forall|k: int| 0 <= k < lines@.len() ==> line_searchable(#[trigger] lines@[k]@),
    ensures
        r@.len() == todos_of_lines(source@, lines@.map_values(|l: String| l@), lines@.len()).len(),
        forall|k: int|
            0 <= k < r@.len() ==> {
                let expected = todos_of_lines(source@, lines@.map_values(|l: String| l@), lines@.len())[k];
                &&& (#[trigger] r@[k]).0@ == expected.0
                &&& r@[k].1@ == expected.1
            },
{
    let ghost all = lines@.map_values(|l: String| l@);
    let mut todos: Vec<(String, String)> = Vec::new();
    let mut k: usize = 0;
    while k < lines.len()
        invariant
            k <= lines@.len(),
            all == lines@.map_values(|l: String| l@),
            forall|j: int| 0 <= j < lines@.len() ==> line_searchable(#[trigger] lines@[j]@),
            todos@.len() == todos_of_lines(source@, all, k as nat).len(),
            forall|j: int|
                0 <= j < todos@.len() ==> {
                    let expected = todos_of_lines(source@, all, k as nat)[j];
                    &&& (#[trigger] todos@[j]).0@ == expected.0
                    &&& todos@[j].1@ == expected.1
                },
        decreases lines@.len() - k,
    {
        let line = lines[k].clone();
        proof {
            assert(all[k as int] == lines@[k as int]@);
        }
        match import_source_code_comment_from_line(line) {
            Some((name, column)) => {
                let mut location = source.to_string();
                location.append(":");
                push_decimal(&mut location, (k + 1) as u64);
                location.append(":");
                push_decimal(&mut location, column as u64);
                proof {
                    reveal_strlit(":");
                    assert(location@ =~= todo_location(source@, (k + 1) as nat, column as nat));
                }
                todos.push((name, location));
            },
            None => {},
        }
        k = k + 1;
    }
    todos
}

} // verus!

verus! {

/// Folders whose name starts with `.` or is `target` hold no source code to
/// read: hidden folders and build output.
pub open spec fn folder_name_excluded(name: Seq<char>) -> bool {
    (name.len() > 0 && name[0] == '.') || name == seq!['t', 'a', 'r', 'g', 'e', 't']
}

/// Whether the todos of a folder are imported, given the names of the
/// folder and of the folders above it: none of them may be excluded.
pub fn should_import_source_code_todos_from_folder(folder_names: &Vec<String>) -> (r: bool)
    ensures
        r == forall|i: int| 0 <= i < folder_names@.len() ==> !folder_name_excluded(#[trigger] folder_names@[i]@),
{
    let target = String::from_str("target");
    proof {
        reveal_strlit("target");
        assert(target@ =~= seq!['t', 'a', 'r', 'g', 'e', 't']);
    }
    let mut i: usize = 0;
    while i < folder_names.len()
        invariant
            i <= folder_names@.len(),
            target@ == seq!['t', 'a', 'r', 'g', 'e', 't'],
            forall|j: int| 0 <= j < i ==> !folder_name_excluded(#[trigger] folder_names@[j]@),
        decreases folder_names@.len() - i,
    {
        let name = folder_names[i].as_str();
        let hidden = name.unicode_len() > 0 && name.get_char(0) == '.';
        if hidden || folder_names[i] == target {
            return false;
        }
        i = i + 1;
    }
    true
}

} // verus!
