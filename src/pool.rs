use vstd::prelude::*;

verus! {

/// The emoji at position `i` of the listing that `emojis::iter` yields, or
/// `None` when the listing has no more than `i` entries.
pub uninterp spec fn listed_emoji(i: nat) -> Option<Seq<char>>;

/// `s` is exactly the listing of `emojis::iter`, entry by entry.
pub open spec fn is_emoji_listing(s: Seq<Seq<char>>) -> bool {
    &&& forall|i: int| 0 <= i < s.len() ==> #[trigger] listed_emoji(i as nat) == Some(s[i])
    &&& listed_emoji(s.len()) is None
}

/// `e` is one of the emojis of the listing: it stands at a position that the
/// listing reaches, with every earlier position filled.
pub open spec fn is_unicode_emoji(e: Seq<char>) -> bool {
    exists|i: nat|
        #[trigger] listed_emoji(i) == Some(e) && forall|j: nat| j < i ==> (#[trigger] listed_emoji(j)) is Some
}

/// The views of a sequence of string slices.
pub open spec fn views_of(s: Seq<&str>) -> Seq<Seq<char>> {
    s.map_values(|e: &str| e@)
}

/// Relies on `emojis::iter` and `Emoji::as_str`: the crate's fixed emoji table,
/// in table order, skipping the variants with a non-default skin tone. The table
/// is compiled into the crate and its first entry (the grinning face) has no
/// skin tone, so the listing is never empty.
#[verifier::external_body]
fn unicode_emojis() -> (r: Vec<&'static str>)
    ensures
        forall|i: int| 0 <= i < r@.len() ==> #[trigger] listed_emoji(i as nat) == Some(r@[i]@),
        listed_emoji(r@.len()) is None,
        r@.len() > 0,
{
    emojis::iter().map(emojis::Emoji::as_str).collect()
}

/// The pool of emojis to draw from: every emoji of the listing, in order.
pub struct EmojiPool {
    entries: Vec<&'static str>,
}

impl View for EmojiPool {
    type V = Seq<Seq<char>>;

    closed spec fn view(&self) -> Seq<Seq<char>> {
        views_of(self.entries@)
    }
}

impl EmojiPool {
    /// What every pool holds: the whole listing, which is not empty.
    #[verifier::type_invariant]
    closed spec fn inv(self) -> bool {
        &&& is_emoji_listing(views_of(self.entries@))
        &&& self.entries@.len() > 0
    }

    pub fn new() -> (r: EmojiPool)
        ensures
            is_emoji_listing(r@),
            r@.len() > 0,
    {
        let entries = unicode_emojis();
        assert(is_emoji_listing(views_of(entries@)));
        EmojiPool { entries }
    }

    /// The number of emojis in the pool.
    pub fn len(&self) -> (r: usize)
        ensures
            r == self@.len(),
            r > 0,
            is_emoji_listing(self@),
    {
        proof {
            use_type_invariant(self);
        }
        self.entries.len()
    }

    /// The emoji at position `i`.
    pub fn get(&self, i: usize) -> (r: &'static str)
        requires
            i < self@.len(),
        ensures
            r@ == self@[i as int],
    {
        self.entries[i]
    }

    /// The entries of the pool, in order.
    pub fn as_slice(&self) -> (r: &[&'static str])
        ensures
            views_of(r@) == self@,
            r@.len() > 0,
            is_emoji_listing(self@),
    {
        proof {
            use_type_invariant(self);
        }
        self.entries.as_slice()
    }
}

/// Any two reads of the pool agree: two sequences that both match the listing
/// have the same size and the same entries in the same order.
pub proof fn lemma_pool_reads_agree(s: Seq<Seq<char>>, t: Seq<Seq<char>>)
    requires
        is_emoji_listing(s),
        is_emoji_listing(t),
    ensures
        s == t,
{
    if s.len() < t.len() {
        let k = s.len() as int;
        assert(listed_emoji(k as nat) == Some(t[k]));
    } else if t.len() < s.len() {
        let k = t.len() as int;
        assert(listed_emoji(k as nat) == Some(s[k]));
    }
    assert forall|i: int| 0 <= i < s.len() implies s[i] == t[i] by {
        assert(listed_emoji(i as nat) == Some(s[i]));
        assert(listed_emoji(i as nat) == Some(t[i]));
    }
    assert(s =~= t);
}

/// An emoji of the listing is an entry of the pool.
pub proof fn lemma_unicode_emoji_in_pool(p: Seq<Seq<char>>, e: Seq<char>)
    requires
        is_emoji_listing(p),
        is_unicode_emoji(e),
    ensures
        p.contains(e),
{
    let i = choose|i: nat|
        #[trigger] listed_emoji(i) == Some(e) && forall|j: nat| j < i ==> (#[trigger] listed_emoji(j)) is Some;
    if i >= p.len() {
        assert(listed_emoji(p.len()) is Some);
    }
    let k = i as int;
    assert(listed_emoji(k as nat) == Some(p[k]));
    assert(p[k] == e);
}

} // verus!
