//! What clearing the font caches covers, and what it reports.

use vstd::prelude::*;

verus! {

/// Which caches are cleared.
#[derive(Debug, Clone, Copy, PartialEq, Eq, Structural)]
pub enum CacheClearStrategy {
    /// The caches of the current user only.
    UserOnly,
    /// The system caches only (needs administrator rights).
    SystemOnly,
    /// Both.
    Both,
}

/// The outcome of clearing caches.
#[derive(Debug)]
pub struct CacheClearResult {
    /// How many cache entries were cleared.
    pub entries_cleared: usize,
    /// Whether the system has to be restarted.
    pub restart_required: bool,
    /// The warnings that came up, in the order in which they did.
    pub warnings: Vec<String>,
}

/// The mathematical value of a [`CacheClearResult`].
pub struct CacheClearResultView {
    pub entries_cleared: usize,
    pub restart_required: bool,
    pub warnings: Seq<Seq<char>>,
}

impl View for CacheClearResult {
    type V = CacheClearResultView;

    open spec fn view(&self) -> CacheClearResultView {
        CacheClearResultView {
            entries_cleared: self.entries_cleared,
            restart_required: self.restart_required,
            warnings: self.warnings@.map_values(|w: String| w@),
        }
    }
}

impl CacheClearResult {
    /// The outcome of a run without warnings.
    pub fn success(entries_cleared: usize, restart_required: bool) -> (res: Self)
        ensures
            res@ == (CacheClearResultView {
                entries_cleared,
                restart_required,
                warnings: Seq::empty(),
            }),
    {
        let res = CacheClearResult { entries_cleared, restart_required, warnings: Vec::new() };
        assert(res@.warnings =~= Seq::<Seq<char>>::empty());
        res
    }

    /// The same outcome with one more warning at the end.
    pub fn with_warning(self, warning: String) -> (res: Self)
        ensures
            res@ == (CacheClearResultView {
                warnings: self@.warnings.push(warning@),
                ..self@
            }),
    {
        let mut res = self;
        res.warnings.push(warning);
        assert(res@.warnings =~= self@.warnings.push(warning@));
        res
    }
}

} // verus!
