//! Names for the files and directories that are made.
use crate::codec;
use crate::model::DownloadMode;
use crate::number;
use crate::outside;
use crate::outside::random_uuid;
use vstd::prelude::*;

verus! {

/// How many names are tried before one is drawn by lot.
pub const NAMES_TRIED: u32 = 10_000;

/// The name that is tried number `n`: the plain one first, then one with `n` in brackets.
pub open spec fn candidate_name(stem: Seq<char>, extension: Seq<char>, n: nat) -> Seq<char> {
    if n == 0 {
        stem + "."@ + extension
    } else {
        stem + " ("@ + number::decimal(n) + ")."@ + extension
    }
}

/// The name with an identifier that nothing else has.
pub open spec fn lot_name(stem: Seq<char>, extension: Seq<char>, id: Seq<char>) -> Seq<char> {
    stem + "-"@ + id + "."@ + extension
}

/// The search for a name that no file has.
#[derive(Debug)]
pub struct OutputSearch {
    stem: String,
    extension: String,
    tried: u32,
}

/// What an [`OutputSearch`] holds: what names are made of, and how many were found taken.
#[verifier::ext_equal]
pub struct SearchView {
    pub stem: Seq<char>,
    pub extension: Seq<char>,
    pub tried: nat,
}

impl View for OutputSearch {
    type V = SearchView;

    closed spec fn view(&self) -> SearchView {
        SearchView {
            stem: self.stem@,
            extension: self.extension@,
            tried: self.tried as nat,
        }
    }
}

/// The name to try next; none where all were found taken.
pub open spec fn next_name(search: SearchView) -> Option<Seq<char>> {
    if search.tried < NAMES_TRIED {
        Some(candidate_name(search.stem, search.extension, search.tried))
    } else {
        None
    }
}

/// The search once the name that was tried is passed over, if one was left.
pub open spec fn passed_over(search: SearchView) -> SearchView {
    SearchView {
        tried: if search.tried < NAMES_TRIED {
            search.tried + 1
        } else {
            search.tried
        },
        ..search
    }
}

impl OutputSearch {
    /// No more names were tried than are.
    pub open spec fn well_formed(self) -> bool {
        self@.tried <= NAMES_TRIED
    }

    /// No name was tried yet.
    pub fn new(stem: &str, extension: &str) -> (search: OutputSearch)
        ensures
            search.well_formed(),
            search@ == (SearchView { stem: stem@, extension: extension@, tried: 0 }),
    {
        OutputSearch { stem: stem.to_owned(), extension: extension.to_owned(), tried: 0 }
    }

    /// The name to try next; none where all were found taken.
    pub fn candidate(&self) -> (name: Option<String>)
        ensures
            codec::opt_view(name) == next_name(self@),
    {
        if self.tried >= NAMES_TRIED {
            return None;
        }
        let mut name: String = self.stem.clone();
        if self.tried == 0 {
            name.append(".");
        } else {
            name.append(" (");
            number::push_decimal(&mut name, self.tried as u64);
            name.append(").");
        }
        name.append(self.extension.as_str());
        assert(name@ =~= candidate_name(self@.stem, self@.extension, self@.tried));
        Some(name)
    }

    /// Passes over the name that was tried, if one was left.
    pub fn reject(&mut self)
        ensures
            old(self).well_formed() ==> final(self).well_formed(),
            final(self)@ == passed_over(old(self)@),
    {
        if self.tried < NAMES_TRIED {
            self.tried = self.tried + 1;
        }
    }

    /// The name with the given identifier.
    pub fn name_with(&self, id: &str) -> (name: String)
        ensures
            name@ == lot_name(self@.stem, self@.extension, id@),
    {
        let name: String = self.stem.clone().concat("-").concat(id).concat(".").concat(
            self.extension.as_str(),
        );
        assert(name@ =~= lot_name(self@.stem, self@.extension, id@));
        name
    }

    /// A name drawn by lot, for where all others were found taken.
    pub fn drawn_name(&self) -> (name: String)
        ensures
            exists|id: Seq<char>| #[trigger]
                outside::is_random_uuid(id) && name@ == lot_name(
                    self@.stem,
                    self@.extension,
                    id,
                ),
    {
        let id: String = random_uuid();
        self.name_with(id.as_str())
    }
}

/// What is taken for the stem of a name: the one of the downloaded file, where it is text.
pub open spec fn stem_or_default(stem: Option<Seq<char>>) -> Seq<char> {
    match stem {
        Some(s) => s,
        None => "download"@,
    }
}

/// The stem of the name of the final file.
pub fn output_stem(stem: Option<&str>) -> (chosen: &str)
    ensures
        chosen@ == stem_or_default(codec::opt_str_view(stem)),
{
    match stem {
        Some(s) => s,
        None => "download",
    }
}

/// The extension that goes with a mode.
pub open spec fn mode_extension(mode: DownloadMode) -> Seq<char> {
    match mode {
        DownloadMode::Video => "mp4"@,
        DownloadMode::AudioOnly => "m4a"@,
    }
}

/// The extension of the name of the final file.
pub fn output_extension(mode: DownloadMode) -> (extension: &'static str)
    ensures
        extension@ == mode_extension(mode),
{
    match mode {
        DownloadMode::Video => "mp4",
        DownloadMode::AudioOnly => "m4a",
    }
}

/// The name of the hidden directory with the given identifier.
pub open spec fn staging_text(id: Seq<char>) -> Seq<char> {
    ".inanna-"@ + id
}

/// The name of the hidden directory with the given identifier in which files are prepared.
pub fn staging_name_with(id: &str) -> (name: String)
    ensures
        name@ == staging_text(id@),
{
    ".inanna-".to_owned().concat(id)
}

/// The name of a new hidden directory in which files are prepared.
pub fn staging_name() -> (name: String)
    ensures
        exists|id: Seq<char>| #[trigger] outside::is_random_uuid(id) && name@ == staging_text(id),
{
    let id: String = random_uuid();
    staging_name_with(id.as_str())
}

// ---------------------------------------------------------------------------------------------
// Laws
// ---------------------------------------------------------------------------------------------

/// No name is tried twice.
pub proof fn names_differ(stem: Seq<char>, extension: Seq<char>, m: nat, n: nat)
    requires
        m != n,
    ensures
        candidate_name(stem, extension, m) != candidate_name(stem, extension, n),
{
    let a = candidate_name(stem, extension, m);
    let b = candidate_name(stem, extension, n);
    let k = stem.len() as int;
    reveal_strlit(".");
    reveal_strlit(" (");
    reveal_strlit(").");
    if m == 0 || n == 0 {
        assert(a[k] != b[k]);
    } else if a == b {
        let p = number::decimal(m);
        let q = number::decimal(n);
        assert(a.len() == k + 2 + p.len() + 2 + extension.len());
        assert(b.len() == k + 2 + q.len() + 2 + extension.len());
        assert(a.subrange(k + 2, k + 2 + p.len()) =~= p);
        assert(b.subrange(k + 2, k + 2 + q.len()) =~= q);
        number::decimal_tells_numbers_apart(m, n);
    }
}

/// A name drawn by lot is none of those that were tried.
pub proof fn drawn_names_are_new(stem: Seq<char>, extension: Seq<char>, id: Seq<char>, n: nat)
    ensures
        lot_name(stem, extension, id) != candidate_name(stem, extension, n),
{
    reveal_strlit("-");
    reveal_strlit(".");
    reveal_strlit(" (");
    let k = stem.len() as int;
    assert(lot_name(stem, extension, id)[k] == '-');
    assert(candidate_name(stem, extension, n)[k] != '-');
}

/// The first `n` names that are tried.
pub open spec fn first_names(stem: Seq<char>, extension: Seq<char>, n: nat) -> Set<Seq<char>>
    decreases n,
{
    if n == 0 {
        Set::empty()
    } else {
        first_names(stem, extension, (n - 1) as nat).insert(
            candidate_name(stem, extension, (n - 1) as nat),
        )
    }
}

proof fn lemma_first_names(stem: Seq<char>, extension: Seq<char>, n: nat)
    ensures
        first_names(stem, extension, n).finite(),
        first_names(stem, extension, n).len() == n,
        forall|name: Seq<char>| #[trigger]
            first_names(stem, extension, n).contains(name) ==> exists|m: nat|
                m < n && name == #[trigger] candidate_name(stem, extension, m),
    decreases n,
{
    if n > 0 {
        let before = first_names(stem, extension, (n - 1) as nat);
        let last = candidate_name(stem, extension, (n - 1) as nat);
        lemma_first_names(stem, extension, (n - 1) as nat);
        if before.contains(last) {
            let m = choose|m: nat|
                m < n - 1 && last == #[trigger] candidate_name(stem, extension, m);
            names_differ(stem, extension, m, (n - 1) as nat);
        }
        assert forall|name: Seq<char>| #[trigger]
            first_names(stem, extension, n).contains(name) implies exists|m: nat|
            m < n && name == #[trigger] candidate_name(stem, extension, m) by {
            if name == last {
                assert(name == candidate_name(stem, extension, (n - 1) as nat));
            } else {
                assert(before.contains(name));
                let m = choose|m: nat|
                    m < n - 1 && name == #[trigger] candidate_name(stem, extension, m);
                assert(m < n && name == candidate_name(stem, extension, m));
            }
        }
    }
}

/// In a directory with fewer files than names are tried, one of those names is free.
pub proof fn some_name_is_free(stem: Seq<char>, extension: Seq<char>, taken: Set<Seq<char>>)
    requires
        taken.finite(),
        taken.len() < NAMES_TRIED,
    ensures
        exists|n: nat|
            n < NAMES_TRIED && !taken.contains(#[trigger] candidate_name(stem, extension, n)),
{
    let names = first_names(stem, extension, NAMES_TRIED as nat);
    lemma_first_names(stem, extension, NAMES_TRIED as nat);
    if names.subset_of(taken) {
        vstd::set_lib::lemma_len_subset(names, taken);
    } else {
        let name = choose|name: Seq<char>| #[trigger] names.contains(name) && !taken.contains(name);
        let n = choose|n: nat|
            n < NAMES_TRIED && name == #[trigger] candidate_name(stem, extension, n);
        assert(!taken.contains(candidate_name(stem, extension, n)));
    }
}

/// Which name a search ends with, where the names in `taken` are found taken.
pub open spec fn search_result(search: SearchView, taken: Set<Seq<char>>) -> Option<nat>
    decreases NAMES_TRIED - search.tried,
{
    match next_name(search) {
        None => None,
        Some(name) => if taken.contains(name) && passed_over(search).tried > search.tried {
            search_result(passed_over(search), taken)
        } else {
            Some(search.tried)
        },
    }
}

/// The search ends with the first name from where it stands that is free, and without one only
/// where none is.
pub proof fn first_free_name_is_found(search: SearchView, taken: Set<Seq<char>>)
    ensures
        match search_result(search, taken) {
            Some(n) => {
                &&& search.tried <= n < NAMES_TRIED
                &&& !taken.contains(candidate_name(search.stem, search.extension, n))
                &&& forall|m: nat|
                    search.tried <= m < n ==> taken.contains(
                        #[trigger] candidate_name(search.stem, search.extension, m),
                    )
            },
            None => forall|m: nat|
                search.tried <= m < NAMES_TRIED ==> taken.contains(
                    #[trigger] candidate_name(search.stem, search.extension, m),
                ),
        },
    decreases NAMES_TRIED - search.tried,
{
    if search.tried < NAMES_TRIED && taken.contains(
        candidate_name(search.stem, search.extension, search.tried),
    ) {
        first_free_name_is_found(passed_over(search), taken);
    }
}

} // verus!
