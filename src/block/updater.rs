use vstd::prelude::*;

verus! {

/// The texts of `slots`, with `separator` between each two neighbours.
pub open spec fn joined(slots: Seq<Seq<char>>, separator: Seq<char>) -> Seq<char>
    decreases slots.len(),
{
    if slots.len() == 0 {
        Seq::empty()
    } else if slots.len() == 1 {
        slots[0]
    } else {
        joined(slots.drop_last(), separator) + separator + slots.last()
    }
}

/// The text of each slot.
pub open spec fn slot_texts(slots: Seq<String>) -> Seq<Seq<char>> {
    slots.map_values(|s: String| s@)
}

/// No character of `s` is NUL, so a C string can carry it.
pub open spec fn nul_free(s: Seq<char>) -> bool {
    forall|i: int| 0 <= i < s.len() ==> s[i] != '\0'
}

fn is_nul_free(s: &str) -> (r: bool)
    ensures
        r == nul_free(s@),
{
    let n = s.unicode_len();
    let mut i: usize = 0;
    while i < n
        invariant
            i <= n,
            n == s@.len(),
            forall|k: int| 0 <= k < i ==> s@[k] != '\0',
        decreases n - i,
    {
        if s.get_char(i) == '\0' {
            return false;
        }
        i = i + 1;
    }
    true
}

/// How a slot vector is laid out on one line.
#[derive(Debug, Clone, Copy)]
pub struct UpdaterConfig<'a> {
    pub prefix: &'a str,
    pub postfix: &'a str,
    pub separator: &'a str,
}

impl<'a> UpdaterConfig<'a> {
    /// `prefix + join(slots, separator) + postfix`.
    pub open spec fn line(&self, slots: Seq<Seq<char>>) -> Seq<char> {
        self.prefix@ + joined(slots, self.separator@) + self.postfix@
    }

    /// Whether the layout is usable by every sink: none of its parts holds a
    /// NUL character. Checked once, before any producer starts.
    pub fn is_valid(&self) -> (r: bool)
        ensures
            r == (nul_free(self.prefix@) && nul_free(self.postfix@) && nul_free(self.separator@)),
    {
        is_nul_free(self.prefix) && is_nul_free(self.postfix) && is_nul_free(self.separator)
    }

    /// Renders `slots` as one line.
    pub fn render(&self, slots: &[String]) -> (r: String)
        ensures
            r@ == self.line(slot_texts(slots@)),
    {
        let mut out = String::from_str(self.prefix);
        let mut i: usize = 0;
        while i < slots.len()
            invariant
                i <= slots@.len(),
                out@ == self.prefix@ + joined(
                    slot_texts(slots@.subrange(0, i as int)),
                    self.separator@,
                ),
            decreases slots.len() - i,
        {
            let ghost before = slot_texts(slots@.subrange(0, i as int));
            let ghost after = slot_texts(slots@.subrange(0, i + 1));
            assert(after.drop_last() =~= before);
            assert(after.last() == slots@[i as int]@);
            if i > 0 {
                out.append(self.separator);
            }
            out.append(slots[i].as_str());
            i = i + 1;
        }
        assert(slots@.subrange(0, slots@.len() as int) =~= slots@);
        out.append(self.postfix);
        out
    }
}

/// The rendered line depends on nothing but the layout and the slots: two
/// layouts with the same texts, over slot vectors with the same texts, give
/// the same line, whichever sink writes it.
pub proof fn lemma_render_is_deterministic(
    a: UpdaterConfig,
    b: UpdaterConfig,
    slots_a: Seq<String>,
    slots_b: Seq<String>,
)
    requires
        a.prefix@ == b.prefix@,
        a.postfix@ == b.postfix@,
        a.separator@ == b.separator@,
        slot_texts(slots_a) == slot_texts(slots_b),
    ensures
        a.line(slot_texts(slots_a)) == b.line(slot_texts(slots_b)),
{
}

/// A sink: takes the whole slot vector and shows it somewhere.
pub trait Updater {
    /// Shows `slots`; an `Err` carries why that failed.
    fn update(&mut self, slots: &[String]) -> Result<(), String>;
}

/// A sink that writes each line to a writer.
pub struct WriteUpdater<'a, W> {
    pub config: UpdaterConfig<'a>,
    pub writable: &'a mut W,
}

impl<'a, W> WriteUpdater<'a, W> {
    pub fn new(writable: &'a mut W, config: UpdaterConfig<'a>) -> (r: Self)
        ensures
            r.config == config,
            *r.writable == *old(writable),
            *final(r.writable) == *final(writable),
    {
        Self { writable, config }
    }

    /// The line that this sink writes for `slots`.
    pub fn line(&self, slots: &[String]) -> (r: String)
        ensures
            r@ == self.config.line(slot_texts(slots@)),
    {
        self.config.render(slots)
    }
}

/// A sink that sets the name of the display's root window.
pub struct XRootUpdater<'a> {
    pub config: UpdaterConfig<'a>,
}

impl<'a> XRootUpdater<'a> {
    pub fn new(config: UpdaterConfig<'a>) -> (r: Self)
        ensures
            r.config == config,
    {
        Self { config: config }
    }

    /// The name that this sink gives the root window for `slots`.
    pub fn line(&self, slots: &[String]) -> (r: String)
        ensures
            r@ == self.config.line(slot_texts(slots@)),
    {
        self.config.render(slots)
    }
}

} // verus!
