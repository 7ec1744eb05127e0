//! Texts as sequences of characters: comparison, suffixes, and lists of fields between separators.

use vstd::prelude::*;

verus! {

/// The contents of a list of strings.
pub open spec fn texts(list: Seq<String>) -> Seq<Seq<char>> {
    Seq::new(list.len(), |i: int| list[i]@)
}

/// The fields of `text` between separators. There is always at least one, the empty text has one
/// empty field, and a trailing separator leaves an empty last field.
pub open spec fn split(text: Seq<char>, separator: char) -> Seq<Seq<char>>
    decreases text.len(),
{
    if text.len() == 0 {
        seq![Seq::empty()]
    } else {
        let fields = split(text.drop_last(), separator);
        if text.last() == separator {
            fields.push(Seq::empty())
        } else {
            fields.drop_last().push(fields.last().push(text.last()))
        }
    }
}

/// The fields with one separator between neighbours.
pub open spec fn join(fields: Seq<Seq<char>>, separator: char) -> Seq<char>
    decreases fields.len(),
{
    if fields.len() == 0 {
        Seq::empty()
    } else if fields.len() == 1 {
        fields[0]
    } else {
        join(fields.drop_last(), separator).push(separator) + fields.last()
    }
}

/// Whether `text` ends with `suffix`.
pub open spec fn has_suffix(text: Seq<char>, suffix: Seq<char>) -> bool {
    suffix.len() <= text.len() && text.skip(text.len() - suffix.len()) == suffix
}

/// The elements that are left after skipping `skipped` of them, at most `taken`.
pub open spec fn skip_take<T>(list: Seq<T>, skipped: nat, taken: nat) -> Seq<T> {
    if list.len() <= skipped {
        Seq::empty()
    } else if list.len() <= skipped + taken {
        list.skip(skipped as int)
    } else {
        list.subrange(skipped as int, (skipped + taken) as int)
    }
}

/// A text has at least one field.
pub proof fn lemma_split_nonempty(text: Seq<char>, separator: char)
    ensures
        split(text, separator).len() >= 1,
    decreases text.len(),
{
    if text.len() > 0 {
        lemma_split_nonempty(text.drop_last(), separator);
    }
}

/// The fields of two texts with a separator between them are the fields of the first, then those
/// of the second.
pub proof fn lemma_split_concat(left: Seq<char>, right: Seq<char>, separator: char)
    ensures
        split(left.push(separator) + right, separator) == split(left, separator) + split(
            right,
            separator,
        ),
    decreases right.len(),
{
    let whole = left.push(separator) + right;
    if right.len() == 0 {
        assert(whole.drop_last() =~= left);
        assert(split(whole, separator) =~= split(left, separator) + split(right, separator));
    } else {
        lemma_split_concat(left, right.drop_last(), separator);
        lemma_split_nonempty(right.drop_last(), separator);
        assert(whole.drop_last() =~= left.push(separator) + right.drop_last());
        assert(split(whole, separator) =~= split(left, separator) + split(right, separator));
    }
}

/// Joining the fields of a text gives the text back.
pub proof fn lemma_join_split(text: Seq<char>, separator: char)
    ensures
        join(split(text, separator), separator) == text,
    decreases text.len(),
{
    if text.len() > 0 {
        let init = text.drop_last();
        let fields = split(init, separator);
        lemma_join_split(init, separator);
        lemma_split_nonempty(init, separator);
        let all = split(text, separator);
        assert(text =~= init.push(text.last()));
        if text.last() == separator {
            assert(all.drop_last() =~= fields);
            assert(join(all, separator) =~= text);
        } else {
            assert(all.drop_last() =~= fields.drop_last());
            assert(all.last() =~= fields.last().push(text.last()));
            assert(join(all, separator) =~= text);
        }
    }
}

/// Whether two texts are the same.
pub(crate) fn same(a: &str, b: &str) -> (r: bool)
    ensures
        r == (a@ == b@),
{
    a.to_owned() == b.to_owned()
}

/// The characters of a text.
pub(crate) fn characters(text: &str) -> (r: Vec<char>)
    ensures
        r@ == text@,
{
    let mut r: Vec<char> = Vec::new();
    for c in it: text.chars()
        invariant
            it.seq() == text@,
            r@ == it.seq().take(it.index() as int),
    {
        r.push(c);
    }
    r
}

/// Whether `text` ends with `suffix`.
pub(crate) fn ends_with(text: &str, suffix: &str) -> (r: bool)
    ensures
        r == has_suffix(text@, suffix@),
{
    let t = characters(text);
    let s = characters(suffix);
    if s.len() > t.len() {
        return false;
    }
    let offset: usize = t.len() - s.len();
    let mut i: usize = 0;
    while i < s.len()
        invariant
            t@ == text@,
            s@ == suffix@,
            offset + s.len() == t.len(),
            i <= s.len(),
            forall|j: int| 0 <= j < i ==> #[trigger] s@[j] == t@[offset + j],
        decreases s.len() - i,
    {
        if s[i] != t[offset + i] {
            assert(text@.skip(offset as int)[i as int] == t@[offset + i]);
            return false;
        }
        i += 1;
    }
    assert(text@.skip(offset as int) =~= suffix@);
    true
}

/// The fields of `text` between separators.
pub(crate) fn split_fields(text: &str, separator: char) -> (r: Vec<String>)
    ensures
        texts(r@) == split(text@, separator),
{
    let t = characters(text);
    let mut r: Vec<String> = Vec::new();
    let mut start: usize = 0;
    let mut i: usize = 0;
    assert(text@.take(0) =~= Seq::empty());
    assert(texts(r@).push(text@.subrange(0, 0)) =~= split(text@.take(0), separator));
    while i < t.len()
        invariant
            t@ == text@,
            start <= i <= t.len(),
            texts(r@).push(text@.subrange(start as int, i as int)) == split(
                text@.take(i as int),
                separator,
            ),
        decreases t.len() - i,
    {
        let ghost before = texts(r@);
        assert(text@.take(i + 1).drop_last() =~= text@.take(i as int));
        if t[i] == separator {
            let field = text.substring_char(start, i).to_owned();
            r.push(field);
            start = i + 1;
            assert(texts(r@) =~= before.push(field@));
            assert(text@.subrange(start as int, i + 1) =~= Seq::empty());
            assert(texts(r@).push(text@.subrange(start as int, i + 1)) =~= split(
                text@.take(i + 1),
                separator,
            ));
        } else {
            assert(text@.subrange(start as int, i + 1) =~= text@.subrange(
                start as int,
                i as int,
            ).push(t@[i as int]));
            assert(before.push(text@.subrange(start as int, i as int)).drop_last() =~= before);
            assert(texts(r@).push(text@.subrange(start as int, i + 1)) =~= split(
                text@.take(i + 1),
                separator,
            ));
        }
        i += 1;
    }
    let ghost before = texts(r@);
    let last = text.substring_char(start, t.len()).to_owned();
    r.push(last);
    assert(text@.take(t.len() as int) =~= text@);
    assert(texts(r@) =~= before.push(last@));
    r
}

/// Joins at most `taken` fields, after skipping `skipped` of them.
pub(crate) fn join_fields(fields: &Vec<String>, skipped: usize, taken: usize, separator: &str) -> (r:
    String)
    requires
        separator@.len() == 1,
        skipped + taken <= usize::MAX,
    ensures
        r@ == join(skip_take(texts(fields@), skipped as nat, taken as nat), separator@[0]),
{
    let ghost chosen = skip_take(texts(fields@), skipped as nat, taken as nat);
    let ghost sep = separator@[0];
    let end: usize = if fields.len() < skipped + taken {
        fields.len()
    } else {
        skipped + taken
    };
    let mut r = String::new();
    if fields.len() <= skipped {
        return r;
    }
    let mut i: usize = skipped;
    assert(chosen.take(0) =~= Seq::empty());
    assert(separator@ =~= seq![sep]);
    while i < end
        invariant
            skipped <= i <= end <= fields.len(),
            end - skipped == chosen.len(),
            separator@ == seq![sep],
            chosen == skip_take(texts(fields@), skipped as nat, taken as nat),
            forall|j: int| 0 <= j < chosen.len() ==> #[trigger] chosen[j] == fields@[skipped + j]@,
            r@ == join(chosen.take(i - skipped), sep),
        decreases end - i,
    {
        let ghost done = chosen.take(i - skipped);
        let ghost next = chosen.take(i + 1 - skipped);
        assert(next.drop_last() =~= done);
        assert(next.last() == fields@[i as int]@);
        if i > skipped {
            r.append(separator);
            r.append(fields[i].as_str());
            assert(r@ =~= join(done, sep).push(sep) + next.last());
        } else {
            r.append(fields[i].as_str());
            assert(r@ =~= next.last());
        }
        i += 1;
    }
    assert(chosen.take(end - skipped) =~= chosen);
    r
}

/// Whether a list holds a text.
pub(crate) fn contains(list: &Vec<String>, text: &str) -> (r: bool)
    ensures
        r == texts(list@).contains(text@),
{
    let mut i: usize = 0;
    while i < list.len()
        invariant
            i <= list.len(),
            forall|j: int| 0 <= j < i ==> #[trigger] texts(list@)[j] != text@,
        decreases list.len() - i,
    {
        if same(list[i].as_str(), text) {
            assert(texts(list@)[i as int] == text@);
            return true;
        }
        i += 1;
    }
    false
}

/// A list of strings and the list of their contents are equally long, and each string stands at
/// the place of its contents.
pub proof fn law_texts_are_the_contents(list: Seq<String>)
    ensures
        texts(list).len() == list.len(),
        forall|i: int| 0 <= i < list.len() ==> #[trigger] texts(list)[i] == list[i]@,
{
}

/// Joining is done piece by piece: nothing joins to nothing, one field to itself, and two lists
/// that are not empty to what they join to with one separator in between.
pub proof fn law_join_of_parts(
    field: Seq<char>,
    left: Seq<Seq<char>>,
    right: Seq<Seq<char>>,
    separator: char,
)
    ensures
        join(Seq::empty(), separator) == Seq::<char>::empty(),
        join(seq![field], separator) == field,
        left.len() > 0 && right.len() > 0 ==> join(left + right, separator) == join(left, separator)
            + seq![separator] + join(right, separator),
    decreases right.len(),
{
    if left.len() > 0 && right.len() > 0 {
        let all = left + right;
        let init = right.drop_last();
        assert(all.drop_last() =~= left + init);
        assert(all.last() == right.last());
        if init.len() > 0 {
            law_join_of_parts(field, left, init, separator);
            assert(join(right, separator) == join(init, separator).push(separator) + right.last());
            assert(join(all, separator) =~= join(left, separator) + seq![separator] + join(
                right,
                separator,
            ));
        } else {
            assert(left + init =~= left);
            assert(right =~= seq![right.last()]);
            assert(join(all, separator) =~= join(left, separator) + seq![separator] + join(
                right,
                separator,
            ));
        }
    }
}

/// The fields of a text join to the text, there is at least one, and none of them holds the
/// separator.
pub proof fn law_fields_hold_no_separator(text: Seq<char>, separator: char)
    ensures
        join(split(text, separator), separator) == text,
        split(text, separator).len() >= 1,
        forall|i: int|
            0 <= i < split(text, separator).len() ==> !(#[trigger] split(text, separator)[i]).contains(
                separator,
            ),
    decreases text.len(),
{
    lemma_join_split(text, separator);
    lemma_split_nonempty(text, separator);
    if text.len() > 0 {
        let init = text.drop_last();
        law_fields_hold_no_separator(init, separator);
        let before = split(init, separator);
        let all = split(text, separator);
        assert forall|i: int| 0 <= i < all.len() implies !(#[trigger] all[i]).contains(
            separator,
        ) by {
            if i < before.len() {
                assert(!before[i].contains(separator));
                if all[i].contains(separator) {
                    let k = all[i].index_of(separator);
                    if k < before[i].len() {
                        assert(before[i][k] == separator);
                    }
                }
            }
        }
    }
}

/// A text ends with another exactly when something stands before it that makes up the text.
pub proof fn law_suffix_leaves_a_prefix(text: Seq<char>, suffix: Seq<char>)
    ensures
        has_suffix(text, suffix) <==> exists|prefix: Seq<char>| #[trigger] (prefix + suffix) == text,
{
    if has_suffix(text, suffix) {
        let prefix = text.take(text.len() - suffix.len());
        assert(prefix + suffix =~= text);
    }
    if exists|prefix: Seq<char>| #[trigger] (prefix + suffix) == text {
        let prefix = choose|prefix: Seq<char>| #[trigger] (prefix + suffix) == text;
        assert(text.skip(text.len() - suffix.len()) =~= suffix);
    }
}

/// Of a list without its first elements at most so many are taken, and all if there are no more;
/// they keep their order.
pub proof fn law_skip_take<T>(list: Seq<T>, skipped: nat, taken: nat)
    ensures
        list.len() <= skipped ==> skip_take(list, skipped, taken).len() == 0,
        skipped < list.len() <= skipped + taken ==> skip_take(list, skipped, taken).len()
            == list.len() - skipped,
        list.len() > skipped + taken ==> skip_take(list, skipped, taken).len() == taken,
        forall|i: int|
            0 <= i < skip_take(list, skipped, taken).len() ==> #[trigger] skip_take(
                list,
                skipped,
                taken,
            )[i] == list[skipped + i],
{
}

} // verus!
