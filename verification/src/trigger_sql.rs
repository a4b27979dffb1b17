use vstd::prelude::*;
use crate::error::MetaStoreError;
use crate::publication_validation::{is_white_space, white_space};

verus! {

/// Calls `String::push`, which appends one character to a string.
#[verifier::external_body]
fn push_char(text: &mut String, c: char)
    ensures
        final(text)@ == old(text)@.push(c),
{
    text.push(c);
}

/// The text without its trailing white space.
pub open spec fn trim_end_space(s: Seq<char>) -> Seq<char>
    decreases s.len(),
{
    if s.len() > 0 && is_white_space(s.last()) {
        trim_end_space(s.drop_last())
    } else {
        s
    }
}

/// The text without its trailing semicolons.
pub open spec fn trim_end_semicolons(s: Seq<char>) -> Seq<char>
    decreases s.len(),
{
    if s.len() > 0 && s.last() == ';' {
        trim_end_semicolons(s.drop_last())
    } else {
        s
    }
}

/// The maximal runs of characters that are not white space, in order.
pub open spec fn words(s: Seq<char>) -> Seq<Seq<char>>
    decreases s.len(),
{
    if s.len() == 0 {
        Seq::empty()
    } else if is_white_space(s.last()) {
        words(s.drop_last())
    } else {
        let before = words(s.drop_last());
        if s.len() >= 2 && !is_white_space(s[s.len() - 2]) {
            before.update(before.len() - 1, before.last().push(s.last()))
        } else {
            before.push(seq![s.last()])
        }
    }
}

/// Words joined by single spaces.
pub open spec fn join_words(ws: Seq<Seq<char>>) -> Seq<char>
    decreases ws.len(),
{
    if ws.len() == 0 {
        Seq::empty()
    } else if ws.len() == 1 {
        ws[0]
    } else {
        join_words(ws.drop_last()) + seq![' '] + ws.last()
    }
}

/// The canonical form of a trigger definition: its words, after dropping
/// trailing white space and semicolons, joined by single spaces.
pub open spec fn canonical_sql(sql: Seq<char>) -> Seq<char> {
    join_words(words(trim_end_semicolons(trim_end_space(sql))))
}

proof fn lemma_words_continue(s: Seq<char>, c: char)
    requires
        s.len() > 0,
        !is_white_space(s.last()),
        !is_white_space(c),
    ensures
        words(s).len() > 0,
        words(s.push(c)) == words(s).update(words(s).len() - 1, words(s).last().push(c)),
{
    lemma_words_nonempty(s);
    let t = s.push(c);
    assert(t.drop_last() =~= s);
    assert(t[t.len() - 2] == s.last());
}

proof fn lemma_words_nonempty(s: Seq<char>)
    requires
        s.len() > 0,
        !is_white_space(s.last()),
    ensures
        words(s).len() > 0,
    decreases s.len(),
{
    let before = words(s.drop_last());
    if s.len() >= 2 && !is_white_space(s[s.len() - 2]) {
        assert(s.drop_last().last() == s[s.len() - 2]);
        lemma_words_nonempty(s.drop_last());
    }
}

proof fn lemma_join_extend_last(ws: Seq<Seq<char>>, c: char)
    requires
        ws.len() > 0,
    ensures
        join_words(ws.update(ws.len() - 1, ws.last().push(c))) == join_words(ws).push(c),
{
    let u = ws.update(ws.len() - 1, ws.last().push(c));
    assert(u.drop_last() =~= ws.drop_last());
    if ws.len() == 1 {
        assert(u[0] == ws[0].push(c));
    } else {
        assert(u.last() == ws.last().push(c));
        assert(join_words(u) =~= join_words(ws).push(c));
    }
}

proof fn lemma_join_push(ws: Seq<Seq<char>>, w: Seq<char>)
    ensures
        join_words(ws.push(w)) == if ws.len() == 0 {
            w
        } else {
            join_words(ws) + seq![' '] + w
        },
{
    let u = ws.push(w);
    assert(u.drop_last() =~= ws);
    if ws.len() == 0 {
        assert(u[0] == w);
    }
}

proof fn lemma_trim_end_space_prefix(s: Seq<char>)
    ensures
        trim_end_space(s).len() <= s.len(),
        trim_end_space(s) == s.take(trim_end_space(s).len() as int),
    decreases s.len(),
{
    if s.len() > 0 && is_white_space(s.last()) {
        lemma_trim_end_space_prefix(s.drop_last());
        let t = trim_end_space(s.drop_last());
        assert(s.drop_last().take(t.len() as int) =~= s.take(t.len() as int));
    } else {
        assert(s.take(s.len() as int) =~= s);
    }
}

proof fn lemma_trim_end_semicolons_prefix(s: Seq<char>)
    ensures
        trim_end_semicolons(s).len() <= s.len(),
        trim_end_semicolons(s) == s.take(trim_end_semicolons(s).len() as int),
    decreases s.len(),
{
    if s.len() > 0 && s.last() == ';' {
        lemma_trim_end_semicolons_prefix(s.drop_last());
        let t = trim_end_semicolons(s.drop_last());
        assert(s.drop_last().take(t.len() as int) =~= s.take(t.len() as int));
    } else {
        assert(s.take(s.len() as int) =~= s);
    }
}

/// The canonical form of a trigger definition, which is what stored and
/// expected definitions are compared by.
pub fn canonical_trigger_sql(sql: &str) -> (r: String)
    ensures
        r@ == canonical_sql(sql@),
{
    let mut chars: Vec<char> = Vec::new();
    for c in iter: sql.chars()
        invariant
            iter.seq() == sql@,
            chars@ == sql@.take(iter.index() as int),
    {
        chars.push(c);
        assert(sql@.take(iter.index() + 1) =~= sql@.take(iter.index() as int).push(c));
    }
    assert(chars@ =~= sql@);
    let mut k: usize = chars.len();
    assert(chars@.take(k as int) =~= chars@);
    while k > 0 && white_space(chars[k - 1])
        invariant
            k <= chars@.len(),
            trim_end_space(chars@) == trim_end_space(chars@.take(k as int)),
        decreases k,
    {
        assert(chars@.take(k as int).drop_last() =~= chars@.take(k - 1));
        k -= 1;
    }
    let ghost trimmed = chars@.take(k as int);
    assert(trim_end_space(trimmed) == trimmed);
    while k > 0 && chars[k - 1] == ';'
        invariant
            k <= trimmed.len(),
            trimmed == trim_end_space(chars@),
            trimmed.len() <= chars@.len(),
            trimmed == chars@.take(trimmed.len() as int),
            trim_end_semicolons(trimmed) == trim_end_semicolons(chars@.take(k as int)),
        decreases k,
    {
        assert(chars@.take(k as int).drop_last() =~= chars@.take(k - 1));
        k -= 1;
    }
    let ghost body = chars@.take(k as int);
    assert(trim_end_semicolons(body) == body);
    let mut out = String::new();
    let mut i: usize = 0;
    let mut in_word = false;
    let mut any_word = false;
    assert(body.take(0) =~= Seq::<char>::empty());
    while i < k
        invariant
            i <= k <= chars@.len(),
            body == chars@.take(k as int),
            out@ == join_words(words(body.take(i as int))),
            in_word == (i > 0 && !is_white_space(body[i - 1])),
            any_word == (words(body.take(i as int)).len() > 0),
        decreases k - i,
    {
        let c = chars[i];
        let ghost prefix = body.take(i as int);
        let ghost next = body.take(i + 1);
        assert(next.drop_last() =~= prefix);
        assert(next.last() == c);
        if white_space(c) {
            in_word = false;
        } else {
            if in_word {
                proof {
                    assert(prefix.last() == body[i - 1]);
                    lemma_words_continue(prefix, c);
                    lemma_join_extend_last(words(prefix), c);
                    assert(prefix.push(c) =~= next);
                }
                push_char(&mut out, c);
            } else {
                proof {
                    if i >= 1 {
                        assert(next[next.len() - 2] == body[i - 1]);
                    }
                    lemma_join_push(words(prefix), seq![c]);
                }
                if any_word {
                    push_char(&mut out, ' ');
                }
                push_char(&mut out, c);
                proof {
                    assert(out@ =~= join_words(words(next)));
                }
            }
            in_word = true;
            any_word = true;
        }
        i += 1;
    }
    proof {
        assert(body.take(k as int) =~= body);
        lemma_trim_end_space_prefix(chars@);
        lemma_trim_end_semicolons_prefix(trimmed);
    }
    out
}

/// Whether `needle` occurs in `haystack` starting at position `i`.
pub open spec fn occurs_at(haystack: Seq<char>, needle: Seq<char>, i: int) -> bool {
    0 <= i && i + needle.len() <= haystack.len() && haystack.subrange(i, i + needle.len())
        == needle
}

fn occurs_at_exec(haystack: &Vec<char>, needle: &Vec<char>, i: usize) -> (r: bool)
    ensures
        r == occurs_at(haystack@, needle@, i as int),
{
    if i > haystack.len() || needle.len() > haystack.len() - i {
        return false;
    }
    let mut j: usize = 0;
    while j < needle.len()
        invariant
            j <= needle@.len(),
            i + needle@.len() <= haystack@.len(),
            haystack@.len() == haystack.len(),
            forall|m: int| 0 <= m < j ==> haystack@[i + m] == needle@[m],
        decreases needle.len() - j,
    {
        if haystack[i + j] != needle[j] {
            proof {
                assert(haystack@.subrange(i as int, i + needle@.len())[j as int] != needle@[j as int]);
            }
            return false;
        }
        j += 1;
    }
    assert(haystack@.subrange(i as int, i + needle@.len()) =~= needle@);
    true
}

fn chars_of(text: &str) -> (r: Vec<char>)
    ensures
        r@ == text@,
{
    let mut chars: Vec<char> = Vec::new();
    for c in iter: text.chars()
        invariant
            iter.seq() == text@,
            chars@ == text@.take(iter.index() as int),
    {
        chars.push(c);
        assert(text@.take(iter.index() + 1) =~= text@.take(iter.index() as int).push(c));
    }
    assert(chars@ =~= text@);
    chars
}

/// The first position at which `needle` occurs in `haystack`, if any.
pub fn find_text(haystack: &str, needle: &str) -> (r: Option<usize>)
    ensures
        match r {
            Some(i) => occurs_at(haystack@, needle@, i as int) && forall|j: int|
                0 <= j < i ==> !occurs_at(haystack@, needle@, j),
            None => forall|j: int| !occurs_at(haystack@, needle@, j),
        },
{
    let h = chars_of(haystack);
    let n = chars_of(needle);
    let mut i: usize = 0;
    while i < h.len()
        invariant
            i <= h@.len(),
            h@ == haystack@,
            n@ == needle@,
            forall|j: int| 0 <= j < i ==> !occurs_at(haystack@, needle@, j),
        decreases h@.len() - i,
    {
        if occurs_at_exec(&h, &n, i) {
            return Some(i);
        }
        i += 1;
    }
    if occurs_at_exec(&h, &n, i) {
        return Some(i);
    }
    assert forall|j: int| !occurs_at(haystack@, needle@, j) by {
        if j > i {
            assert(!(j + needle@.len() <= haystack@.len()));
        }
    }
    None
}

/// The counts a check of the retirement schema reads.
pub struct RetirementSchemaCounts {
    pub authority_columns: i64,
    pub required_tables: i64,
    pub required_triggers: i64,
    pub pending_indexes: i64,
    pub invalid_retirements: i64,
    pub pending_retirements: i64,
    pub completion_guards: i64,
}

/// Authority columns the publication journal carries.
pub const AUTHORITY_COLUMN_COUNT: i64 = 8;
/// Tables the retirement schema adds.
pub const RETIREMENT_TABLE_COUNT: i64 = 3;
/// Base triggers the retirement schema relies on.
pub const BASE_TRIGGER_COUNT: i64 = 4;

/// The retirement schema is complete and its rows are consistent: every
/// authority column, table, base trigger and the pending index exist; every
/// abandoned publication has a retirement and every pending retirement an
/// abandoned publication; no completion guard is left; no more retirements
/// are pending than one replay reads.
pub open spec fn retirement_schema_counts_ok(c: RetirementSchemaCounts) -> bool {
    &&& c.authority_columns == AUTHORITY_COLUMN_COUNT
    &&& c.required_tables == RETIREMENT_TABLE_COUNT
    &&& c.required_triggers == BASE_TRIGGER_COUNT
    &&& c.pending_indexes == 1
    &&& c.invalid_retirements == 0
    &&& c.completion_guards == 0
    &&& c.pending_retirements <= crate::retirement::SEARCH_PUBLICATION_RETIREMENT_REPLAY_LIMIT
}

/// Checks the counts of the retirement schema.
pub fn check_retirement_schema_counts(c: &RetirementSchemaCounts) -> (r: Result<(), MetaStoreError>)
    ensures
        r is Ok <==> retirement_schema_counts_ok(*c),
        r is Err ==> r == Err::<(), MetaStoreError>(MetaStoreError::StorageInvariant),
{
    if c.authority_columns != AUTHORITY_COLUMN_COUNT || c.required_tables != RETIREMENT_TABLE_COUNT
        || c.required_triggers != BASE_TRIGGER_COUNT || c.pending_indexes != 1
        || c.invalid_retirements != 0 || c.completion_guards != 0 || c.pending_retirements
        > crate::retirement::SEARCH_PUBLICATION_RETIREMENT_REPLAY_LIMIT as i64 {
        return Err(MetaStoreError::StorageInvariant);
    }
    Ok(())
}

/// The migration attempt table admits the terminal phase and the cleanup
/// error class.
pub fn check_attempt_schema(attempt_schema: &str) -> (r: Result<(), MetaStoreError>)
    ensures
        r is Ok <==> (exists|i: int| occurs_at(attempt_schema@, "'terminal'"@, i)) && (exists|
            i: int,
        | occurs_at(attempt_schema@, "'cleanup'"@, i)),
        r is Err ==> r == Err::<(), MetaStoreError>(MetaStoreError::StorageInvariant),
{
    let terminal = find_text(attempt_schema, "'terminal'");
    let cleanup = find_text(attempt_schema, "'cleanup'");
    match (terminal, cleanup) {
        (Some(_), Some(_)) => Ok(()),
        _ => Err(MetaStoreError::StorageInvariant),
    }
}

/// A stored trigger definition matches the expected one up to white space
/// and trailing semicolons.
pub fn check_trigger_definition(actual: Option<&str>, expected: &str) -> (r: Result<
    (),
    MetaStoreError,
>)
    ensures
        r is Ok <==> (actual matches Some(a) && canonical_sql(a@) == canonical_sql(expected@)),
        r is Err ==> r == Err::<(), MetaStoreError>(MetaStoreError::StorageInvariant),
{
    let actual = match actual {
        Some(a) => a,
        None => return Err(MetaStoreError::StorageInvariant),
    };
    let a = canonical_trigger_sql(actual);
    let e = canonical_trigger_sql(expected);
    if crate::text::text_equal(a.as_str(), e.as_str()) {
        Ok(())
    } else {
        Err(MetaStoreError::StorageInvariant)
    }
}

/// The first position at or after `from` where `needle` occurs.
pub open spec fn first_occurrence_from(haystack: Seq<char>, needle: Seq<char>, from: int, i: int) -> bool {
    &&& from <= i
    &&& occurs_at(haystack, needle, i)
    &&& forall|j: int| from <= j < i ==> !occurs_at(haystack, needle, j)
}

fn find_from(h: &Vec<char>, n: &Vec<char>, from: usize) -> (r: Option<usize>)
    requires
        from <= h@.len(),
    ensures
        match r {
            Some(i) => first_occurrence_from(h@, n@, from as int, i as int),
            None => forall|j: int| from <= j ==> !occurs_at(h@, n@, j),
        },
{
    let mut i: usize = from;
    while i < h.len()
        invariant
            from <= i <= h@.len(),
            forall|j: int| from <= j < i ==> !occurs_at(h@, n@, j),
        decreases h@.len() - i,
    {
        if occurs_at_exec(h, n, i) {
            return Some(i);
        }
        i += 1;
    }
    if occurs_at_exec(h, n, i) {
        return Some(i);
    }
    assert forall|j: int| from <= j implies !occurs_at(h@, n@, j) by {
        if j > i {
            assert(!(j + n@.len() <= h@.len()));
        }
    }
    None
}

/// The marker that starts the definition of a trigger in a schema.
pub open spec fn trigger_marker(name: Seq<char>) -> Seq<char> {
    "CREATE TRIGGER "@ + name + seq!['\n']
}

/// The marker that ends a trigger definition.
pub open spec fn trigger_end() -> Seq<char> {
    seq!['\n', 'E', 'N', 'D', ';']
}

/// The definition of a named trigger in a schema: from its first
/// `CREATE TRIGGER` line to the first `END;` line after it.
pub fn trigger_definition(schema: &str, name: &str) -> (r: Result<String, MetaStoreError>)
    ensures
        match r {
            Ok(t) => exists|start: int, end: int|
                first_occurrence_from(schema@, trigger_marker(name@), 0, start)
                    && first_occurrence_from(schema@, trigger_end(), start, end) && t@
                    == schema@.subrange(start, end + 5),
            Err(e) => e == MetaStoreError::StorageInvariant && forall|start: int|
                first_occurrence_from(schema@, trigger_marker(name@), 0, start) ==> forall|
                    j: int,
                | start <= j ==> !occurs_at(schema@, trigger_end(), j),
        },
{
    proof {
        reveal_strlit("CREATE TRIGGER ");
    }
    let h = chars_of(schema);
    let mut marker = chars_of("CREATE TRIGGER ");
    let name_chars = chars_of(name);
    let mut k: usize = 0;
    let ghost prefix = marker@;
    while k < name_chars.len()
        invariant
            k <= name_chars@.len(),
            marker@ == prefix + name_chars@.take(k as int),
        decreases name_chars@.len() - k,
    {
        marker.push(name_chars[k]);
        assert(name_chars@.take(k + 1) =~= name_chars@.take(k as int).push(name_chars@[k as int]));
        k += 1;
    }
    marker.push('\n');
    assert(name_chars@.take(k as int) =~= name@);
    assert(marker@ =~= trigger_marker(name@));
    let start = match find_from(&h, &marker, 0) {
        Some(s) => s,
        None => return Err(MetaStoreError::StorageInvariant),
    };
    let mut end_marker: Vec<char> = Vec::new();
    end_marker.push('\n');
    end_marker.push('E');
    end_marker.push('N');
    end_marker.push('D');
    end_marker.push(';');
    assert(end_marker@ =~= trigger_end());
    let end = match find_from(&h, &end_marker, start) {
        Some(e) => e,
        None => {
            proof {
                assert forall|s: int|
                    first_occurrence_from(schema@, trigger_marker(name@), 0, s) implies forall|
                        j: int,
                    | s <= j ==> !occurs_at(schema@, trigger_end(), j) by {
                    if s < start {
                        assert(!occurs_at(schema@, trigger_marker(name@), s));
                    }
                    if s > start {
                        assert(!occurs_at(schema@, trigger_marker(name@), start as int));
                    }
                }
            }
            return Err(MetaStoreError::StorageInvariant);
        },
    };
    assert(end_marker@.len() == 5);
    assert(end + 5 <= h@.len());
    assert(h@.len() == h.len());
    let stop: usize = end + 5;
    let mut out = String::new();
    let mut i: usize = start;
    while i < stop
        invariant
            stop == end + 5,
            start <= i <= stop <= h@.len(),
            out@ == h@.subrange(start as int, i as int),
        decreases stop - i,
    {
        push_char(&mut out, h[i]);
        assert(h@.subrange(start as int, i + 1) =~= h@.subrange(start as int, i as int).push(
            h@[i as int],
        ));
        i += 1;
    }
    Ok(out)
}

} // verus!
