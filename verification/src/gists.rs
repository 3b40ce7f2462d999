//! Gists as the service reports them, and the look-ups that the commands share.
use crate::sort;
use crate::text;
use vstd::prelude::*;
use vstd::relations;
use vstd::seq_lib;

verus! {

/// One file of a gist. `content` is missing, or may be cut, in a listing.
#[derive(Debug)]
pub struct GistFile {
    pub filename: String,
    pub content: Option<String>,
    pub raw_url: Option<String>,
    pub size: Option<u64>,
    pub language: Option<String>,
}

/// A gist. `files` pairs each file name with its file, in no particular order.
#[derive(Debug)]
pub struct Gist {
    pub id: String,
    pub html_url: String,
    pub description: Option<String>,
    pub public: bool,
    pub created_at: String,
    pub updated_at: String,
    pub files: Vec<(String, GistFile)>,
}

/// What a [`GistFile`] holds.
pub struct GistFileView {
    pub filename: Seq<char>,
    pub content: Option<Seq<char>>,
    pub raw_url: Option<Seq<char>>,
    pub size: Option<u64>,
    pub language: Option<Seq<char>>,
}

/// What a [`Gist`] holds.
pub struct GistView {
    pub id: Seq<char>,
    pub html_url: Seq<char>,
    pub description: Option<Seq<char>>,
    pub public: bool,
    pub created_at: Seq<char>,
    pub updated_at: Seq<char>,
    pub files: Seq<(Seq<char>, GistFileView)>,
}

impl View for GistFile {
    type V = GistFileView;

    open spec fn view(&self) -> GistFileView {
        GistFileView {
            filename: self.filename@,
            content: self.content.deep_view(),
            raw_url: self.raw_url.deep_view(),
            size: self.size,
            language: self.language.deep_view(),
        }
    }
}

impl View for Gist {
    type V = GistView;

    open spec fn view(&self) -> GistView {
        GistView {
            id: self.id@,
            html_url: self.html_url@,
            description: self.description.deep_view(),
            public: self.public,
            created_at: self.created_at@,
            updated_at: self.updated_at@,
            files: self.files@.map_values(|p: (String, GistFile)| (p.0@, p.1@)),
        }
    }
}

/// The views of a list of gists.
pub open spec fn gist_views(gists: Seq<Gist>) -> Seq<GistView> {
    gists.map_values(|g: Gist| g@)
}

impl GistView {
    /// The names of the files, in the order in which the files are held.
    pub open spec fn names(self) -> Seq<Seq<char>> {
        self.files.map_values(|p: (Seq<char>, GistFileView)| p.0)
    }

    /// Whether no two files share a name.
    pub open spec fn well_formed(self) -> bool {
        self.names().no_duplicates()
    }

    /// The names of the files in ascending order.
    pub open spec fn sorted_names(self) -> Seq<Seq<char>> {
        sort::stable_sort(self.names(), name_order())
    }

    /// Whether a file has the name `name`.
    pub open spec fn has_file(self, name: Seq<char>) -> bool {
        self.names().contains(name)
    }

    /// The file with the name `name`: the first, if several share it.
    pub open spec fn file(self, name: Seq<char>) -> Option<GistFileView> {
        match sort::first_position(self.names(), name) {
            Some(i) => Some(self.files[i].1),
            None => None,
        }
    }

    /// The gist with a file put under a name, in place of the one that had the name before.
    pub open spec fn with_file(self, name: Seq<char>, file: GistFileView) -> GistView {
        GistView {
            files: match sort::first_position(self.names(), name) {
                Some(i) => self.files.update(i, (name, file)),
                None => self.files.push((name, file)),
            },
            ..self
        }
    }

    /// The text of the file with the name `name`, where it is known.
    pub open spec fn content_of(self, name: Seq<char>) -> Option<Seq<char>> {
        match self.file(name) {
            Some(f) => f.content,
            None => None,
        }
    }
}

/// File names stand in ascending order.
pub open spec fn name_order() -> spec_fn(Seq<char>, Seq<char>) -> bool {
    |a: Seq<char>, b: Seq<char>| text::text_le(a, b)
}

/// The gist with the latest change stands first.
pub open spec fn update_order() -> spec_fn(GistView, GistView) -> bool {
    |a: GistView, b: GistView| text::text_le(b.updated_at, a.updated_at)
}

/// The gists from the one changed last to the one changed first. Gists with the same
/// time of change keep their order.
pub open spec fn by_update(gists: Seq<GistView>) -> Seq<GistView> {
    sort::stable_sort(gists, update_order())
}

/// The position of the first gist with the identifier `id`.
pub open spec fn gist_position(gists: Seq<GistView>, id: Seq<char>) -> Option<int> {
    sort::first_position(gists.map_values(|g: GistView| g.id), id)
}

/// The first gist with the identifier `id`.
pub open spec fn gist_with_id(gists: Seq<GistView>, id: Seq<char>) -> Option<GistView> {
    match gist_position(gists, id) {
        Some(i) => Some(gists[i]),
        None => None,
    }
}

/// The known text of the file `name` of the first gist with the identifier `id`.
pub open spec fn known_content(gists: Seq<GistView>, id: Seq<char>, name: Seq<char>) -> Option<
    Seq<char>,
> {
    match gist_with_id(gists, id) {
        Some(g) => g.content_of(name),
        None => None,
    }
}

impl Gist {
    /// The names of the files in ascending order.
    pub fn sorted_names(&self) -> (r: Vec<String>)
        ensures
            text::views(r@) == self@.sorted_names(),
    {
        let ghost names = self@.names();
        let mut sorted: Vec<String> = Vec::new();
        assert(names.take(0) =~= Seq::<Seq<char>>::empty());
        assert(text::views(sorted@) =~= sort::stable_sort(names.take(0), name_order()));
        let n: usize = self.files.len();
        for i in 0..n
            invariant
                n == self.files@.len(),
                names == self@.names(),
                text::views(sorted@) == sort::stable_sort(names.take(i as int), name_order()),
        {
            let name: &String = &self.files[i].0;
            let ghost done = text::views(sorted@);
            let mut k: usize = sorted.len();
            while k > 0 && !text::str_le(sorted[k - 1].as_str(), name.as_str())
                invariant
                    k <= sorted@.len(),
                    done == text::views(sorted@),
                    forall|j: int|
                        k <= j < done.len() ==> !name_order()(#[trigger] done[j], name@),
                decreases k,
            {
                k = k - 1;
                assert(done[k as int] == sorted@[k as int]@);
            }
            proof {
                if k > 0 {
                    assert(done[k - 1] == sorted@[k - 1]@);
                }
                sort::lemma_stable_insert_at(done, name@, name_order(), k as int);
                assert(names.take(i + 1).drop_last() =~= names.take(i as int));
                assert(names.take(i + 1).last() == name@);
            }
            sorted.insert(k, name.clone());
            assert(text::views(sorted@) =~= done.insert(k as int, name@));
        }
        assert(names.take(n as int) =~= names);
        sorted
    }

    /// Puts a file under a name, in place of the one that had the name before.
    pub fn insert_file(&mut self, name: String, file: GistFile)
        ensures
            old(self)@.well_formed() ==> final(self)@.well_formed(),
            final(self)@ == old(self)@.with_file(name@, file@),
    {
        let ghost before = self@;
        match self.position(name.as_str()) {
            Some(i) => {
                self.files.set(i, (name, file));
                proof {
                    sort::lemma_first_position(before.names(), name@);
                    assert(self@.files =~= before.files.update(i as int, (name@, file@)));
                    assert(self@.names() =~= before.names());
                }
            },
            None => {
                self.files.push((name, file));
                proof {
                    assert(self@.files =~= before.files.push((name@, file@)));
                    assert(self@.names() =~= before.names().push(name@));
                }
            },
        }
    }

    /// Whether a file has the name `name`.
    pub fn has_file(&self, name: &str) -> (r: bool)
        ensures
            r == self@.has_file(name@),
    {
        match self.position(name) {
            Some(_) => true,
            None => false,
        }
    }

    /// The position of the first file with the name `name`.
    fn position(&self, name: &str) -> (r: Option<usize>)
        ensures
            match r {
                Some(i) => i < self.files@.len() && sort::first_position(self@.names(), name@)
                    == Some(i as int) && self@.has_file(name@),
                None => sort::first_position(self@.names(), name@) is None && !self@.has_file(name@),
            },
    {
        let ghost names = self@.names();
        let n: usize = self.files.len();
        for i in 0..n
            invariant
                n == self.files@.len(),
                names == self@.names(),
                forall|j: int| 0 <= j < i ==> names[j] != name@,
        {
            assert(names[i as int] == self.files@[i as int].0@);
            if text::str_eq(self.files[i].0.as_str(), name) {
                proof {
                    sort::lemma_first_position_is(names, name@, i as int);
                }
                return Some(i);
            }
        }
        proof {
            sort::lemma_first_position(names, name@);
        }
        None
    }

    /// The text of the file with the name `name`, where it is known.
    pub fn content_of(&self, name: &str) -> (r: Option<String>)
        ensures
            r.deep_view() == self@.content_of(name@),
    {
        match self.position(name) {
            Some(i) => {
                assert(self@.files[i as int].1 == self.files@[i as int].1@);
                match &self.files[i].1.content {
                    Some(text) => Some(text.clone()),
                    None => None,
                }
            },
            None => None,
        }
    }
}

/// The position of the first gist with the identifier `id`.
pub fn find_gist(gists: &Vec<Gist>, id: &str) -> (r: Option<usize>)
    ensures
        match r {
            Some(i) => i < gists@.len() && gist_position(gist_views(gists@), id@) == Some(i as int),
            None => gist_position(gist_views(gists@), id@) is None,
        },
{
    let ghost ids = gist_views(gists@).map_values(|g: GistView| g.id);
    let n: usize = gists.len();
    for i in 0..n
        invariant
            n == gists@.len(),
            ids == gist_views(gists@).map_values(|g: GistView| g.id),
            forall|j: int| 0 <= j < i ==> ids[j] != id@,
    {
        assert(ids[i as int] == gists@[i as int].id@);
        if text::str_eq(gists[i].id.as_str(), id) {
            proof {
                sort::lemma_first_position_is(ids, id@, i as int);
            }
            return Some(i);
        }
    }
    proof {
        sort::lemma_first_position(ids, id@);
    }
    None
}

/// The known text of the file `name` of the first gist with the identifier `id`.
pub fn find_content(gists: &Vec<Gist>, id: &str, name: &str) -> (r: Option<String>)
    ensures
        r.deep_view() == known_content(gist_views(gists@), id@, name@),
{
    match find_gist(gists, id) {
        Some(i) => gists[i].content_of(name),
        None => None,
    }
}

/// The positions of the gists, from the one changed last to the one changed first.
pub fn positions_by_update(gists: &Vec<Gist>) -> (r: Vec<usize>)
    ensures
        forall|i: int| 0 <= i < r@.len() ==> #[trigger] r@[i] < gists@.len(),
        r@.map_values(|i: usize| gist_views(gists@)[i as int]) == by_update(gist_views(gists@)),
{
    let ghost all = gist_views(gists@);
    let ghost at = |i: usize| all[i as int];
    let mut sorted: Vec<usize> = Vec::new();
    assert(all.take(0) =~= Seq::<GistView>::empty());
    assert(sorted@.map_values(at) =~= by_update(all.take(0)));
    let n: usize = gists.len();
    for i in 0..n
        invariant
            n == gists@.len(),
            all == gist_views(gists@),
            at == (|i: usize| all[i as int]),
            forall|j: int| 0 <= j < sorted@.len() ==> #[trigger] sorted@[j] < n,
            sorted@.map_values(at) == by_update(all.take(i as int)),
    {
        let ghost done = sorted@.map_values(at);
        let ghost gist = all[i as int];
        let mut k: usize = sorted.len();
        while k > 0 && !text::str_le(
            gists[i].updated_at.as_str(),
            gists[sorted[k - 1]].updated_at.as_str(),
        )
            invariant
                i < n,
                n == gists@.len(),
                k <= sorted@.len(),
                all == gist_views(gists@),
                at == (|i: usize| all[i as int]),
                gist == all[i as int],
                done == sorted@.map_values(at),
                forall|j: int| 0 <= j < sorted@.len() ==> #[trigger] sorted@[j] < n,
                forall|j: int| k <= j < done.len() ==> !update_order()(#[trigger] done[j], gist),
            decreases k,
        {
            k = k - 1;
            assert(done[k as int] == all[sorted@[k as int] as int]);
        }
        proof {
            if k > 0 {
                assert(done[k - 1] == all[sorted@[k - 1] as int]);
            }
            sort::lemma_stable_insert_at(done, gist, update_order(), k as int);
            assert(all.take(i + 1).drop_last() =~= all.take(i as int));
            assert(all.take(i + 1).last() == gist);
        }
        sorted.insert(k, i);
        assert(sorted@.map_values(at) =~= done.insert(k as int, gist));
    }
    assert(all.take(n as int) =~= all);
    sorted
}

/// A file that was put under a name is found under that name, and every other name leads where it
/// led before.
pub proof fn law_inserted_file_is_found(
    gist: GistView,
    name: Seq<char>,
    file: GistFileView,
    other: Seq<char>,
)
    ensures
        gist.with_file(name, file).file(name) == Some(file),
        other != name ==> gist.with_file(name, file).file(other) == gist.file(other),
{
    let after = gist.with_file(name, file);
    sort::lemma_first_position(gist.names(), name);
    match sort::first_position(gist.names(), name) {
        Some(i) => {
            assert(after.names() =~= gist.names());
        },
        None => {
            let n = gist.names().len() as int;
            assert(after.names() =~= gist.names().push(name));
            assert forall|j: int| 0 <= j < n implies after.names()[j] != name by {
                assert(gist.names().contains(gist.names()[j]));
            }
            sort::lemma_first_position_is(after.names(), name, n);
        },
    }
    if other != name {
        sort::lemma_first_position(gist.names(), other);
        sort::lemma_first_position(after.names(), other);
        match sort::first_position(gist.names(), other) {
            Some(k) => {
                assert forall|j: int| 0 <= j < k implies after.names()[j] != other by {
                    assert(gist.names()[j] != other);
                }
                assert(after.names()[k] == other);
                sort::lemma_first_position_is(after.names(), other, k);
            },
            None => {
                if after.names().contains(other) {
                    let j = choose|j: int| 0 <= j < after.names().len() && after.names()[j] == other;
                    assert(gist.names()[j] == other);
                }
            },
        }
    }
}

/// The order of file names is total, and names that tie are equal.
proof fn lemma_name_order()
    ensures
        relations::total_ordering(name_order()),
        sort::total_preorder(name_order()),
{
    let le = name_order();
    assert forall|a: Seq<char>| #[trigger] le(a, a) by {
        text::law_text_order(a, a, a);
    }
    assert forall|a: Seq<char>, b: Seq<char>| #[trigger] le(a, b) || #[trigger] le(b, a) by {
        text::law_text_order(a, b, b);
    }
    assert forall|a: Seq<char>, b: Seq<char>| #[trigger] le(a, b) && #[trigger] le(b, a) implies a
        == b by {
        text::law_text_order(a, b, b);
    }
    assert forall|a: Seq<char>, b: Seq<char>, c: Seq<char>| #[trigger] le(a, b) && #[trigger] le(
        b,
        c,
    ) implies le(a, c) by {
        text::law_text_order(a, b, c);
    }
}

/// The names of the files are listed each once, in ascending order.
pub proof fn law_names_ascend(gist: GistView)
    ensures
        gist.sorted_names().to_multiset() == gist.names().to_multiset(),
        forall|i: int, j: int|
            0 <= i < j < gist.sorted_names().len() ==> text::text_le(
                #[trigger] gist.sorted_names()[i],
                #[trigger] gist.sorted_names()[j],
            ),
{
    lemma_name_order();
    sort::law_sort_permutes(gist.names(), name_order());
    sort::law_sort_sorts(gist.names(), name_order());
    let sorted = gist.sorted_names();
    assert forall|i: int, j: int| 0 <= i < j < sorted.len() implies text::text_le(
        #[trigger] sorted[i],
        #[trigger] sorted[j],
    ) by {
        assert(name_order()(sorted[i], sorted[j]));
    }
}

/// The list of names does not depend on the order in which the files are held.
pub proof fn law_names_do_not_depend_on_order(a: GistView, b: GistView)
    requires
        a.names().to_multiset() == b.names().to_multiset(),
    ensures
        a.sorted_names() == b.sorted_names(),
{
    lemma_name_order();
    sort::law_sort_permutes(a.names(), name_order());
    sort::law_sort_permutes(b.names(), name_order());
    sort::law_sort_sorts(a.names(), name_order());
    sort::law_sort_sorts(b.names(), name_order());
    seq_lib::lemma_sorted_unique(a.sorted_names(), b.sorted_names(), name_order());
}

/// The order of gists compares every two gists.
pub proof fn lemma_update_order()
    ensures
        sort::total_preorder(update_order()),
{
    let before = update_order();
    assert forall|a: GistView, b: GistView| #[trigger] before(a, b) || before(b, a) by {
        text::law_text_order(a.updated_at, b.updated_at, b.updated_at);
    }
    assert forall|a: GistView, b: GistView, c: GistView| #[trigger] before(a, b)
        && #[trigger] before(b, c) implies before(a, c) by {
        text::law_text_order(c.updated_at, b.updated_at, a.updated_at);
    }
}

/// The gists are listed each once, the one changed last first. Those changed at the same time keep
/// their order.
pub proof fn law_newest_first(gists: Seq<GistView>, pivot: GistView)
    ensures
        by_update(gists).to_multiset() == gists.to_multiset(),
        forall|i: int, j: int|
            0 <= i < j < by_update(gists).len() ==> text::text_le(
                (#[trigger] by_update(gists)[j]).updated_at,
                (#[trigger] by_update(gists)[i]).updated_at,
            ),
        by_update(gists).filter(|g: GistView| g.updated_at == pivot.updated_at) == gists.filter(
            |g: GistView| g.updated_at == pivot.updated_at,
        ),
{
    lemma_update_order();
    sort::law_sort_permutes(gists, update_order());
    sort::law_sort_sorts(gists, update_order());
    sort::law_sort_stable(gists, update_order(), pivot);
    let sorted = by_update(gists);
    assert forall|i: int, j: int| 0 <= i < j < sorted.len() implies text::text_le(
        (#[trigger] sorted[j]).updated_at,
        (#[trigger] sorted[i]).updated_at,
    ) by {
        assert(update_order()(sorted[i], sorted[j]));
    }
    let same = |g: GistView| g.updated_at == pivot.updated_at;
    let tied = sort::tied(update_order(), pivot);
    assert forall|g: GistView| same(g) == #[trigger] tied(g) by {
        text::law_text_order(g.updated_at, pivot.updated_at, g.updated_at);
    }
    assert(same =~= tied);
}

/// Whether gist `i` is the first with the identifier `id`.
pub open spec fn stands_first(gists: Seq<GistView>, id: Seq<char>, i: int) -> bool {
    &&& 0 <= i < gists.len()
    &&& gists[i].id == id
    &&& forall|k: int| 0 <= k < i ==> (#[trigger] gists[k]).id != id
}

/// Whether file `j` is the first with the name `name`.
pub open spec fn file_stands_first(gist: GistView, name: Seq<char>, j: int) -> bool {
    &&& 0 <= j < gist.files.len()
    &&& gist.files[j].0 == name
    &&& forall|k: int| 0 <= k < j ==> (#[trigger] gist.files[k]).0 != name
}

/// Whether the first gist with the identifier `id` holds `content` as the text of its first file
/// with the name `name`.
pub open spec fn holds_text(
    gists: Seq<GistView>,
    id: Seq<char>,
    name: Seq<char>,
    content: Seq<char>,
) -> bool {
    exists|i: int, j: int| #[trigger]
        stands_first(gists, id, i) && #[trigger] file_stands_first(gists[i], name, j)
            && gists[i].files[j].1.content == Some(content)
}

/// The gist that is found is the first with the identifier, and one is found where there is one.
pub proof fn law_gist_is_found(gists: Seq<GistView>, id: Seq<char>, i: int)
    ensures
        gist_position(gists, id) == Some(i) <==> stands_first(gists, id, i),
        stands_first(gists, id, i) ==> gist_with_id(gists, id) == Some(gists[i]),
        gist_with_id(gists, id) is None <==> forall|k: int|
            0 <= k < gists.len() ==> (#[trigger] gists[k]).id != id,
{
    let ids = gists.map_values(|g: GistView| g.id);
    sort::lemma_first_position(ids, id);
    if stands_first(gists, id, i) {
        assert forall|k: int| 0 <= k < i implies ids[k] != id by {
            assert(gists[k].id != id);
        }
        sort::lemma_first_position_is(ids, id, i);
    }
    if let Some(k) = gist_position(gists, id) {
        assert(ids[k] == gists[k].id);
        assert forall|j: int| 0 <= j < k implies (#[trigger] gists[j]).id != id by {
            assert(ids[j] != id);
        }
    } else {
        assert forall|k: int| 0 <= k < gists.len() implies (#[trigger] gists[k]).id != id by {
            assert(ids.contains(ids[k]));
        }
    }
}

/// The file that is found is the first with the name, and one is found where there is one.
pub proof fn law_file_is_found(gist: GistView, name: Seq<char>, j: int)
    ensures
        file_stands_first(gist, name, j) ==> gist.file(name) == Some(gist.files[j].1)
            && gist.content_of(name) == gist.files[j].1.content,
        gist.file(name) is None <==> forall|k: int|
            0 <= k < gist.files.len() ==> (#[trigger] gist.files[k]).0 != name,
        gist.has_file(name) <==> gist.file(name) is Some,
        gist.file(name) is None ==> gist.content_of(name) is None,
{
    let names = gist.names();
    sort::lemma_first_position(names, name);
    if file_stands_first(gist, name, j) {
        assert forall|k: int| 0 <= k < j implies names[k] != name by {
            assert(gist.files[k].0 != name);
        }
        sort::lemma_first_position_is(names, name, j);
    }
    if let Some(k) = sort::first_position(names, name) {
        assert(names[k] == gist.files[k].0);
        assert(names.contains(name));
    } else {
        assert forall|k: int| 0 <= k < gist.files.len() implies (#[trigger] gist.files[k]).0
            != name by {
            assert(names.contains(names[k]));
        }
    }
}

/// The known text of a file is what its gist holds, character for character, and nothing is known
/// where the gist holds nothing.
pub proof fn law_known_text(gists: Seq<GistView>, id: Seq<char>, name: Seq<char>, content: Seq<char>)
    ensures
        known_content(gists, id, name) == Some(content) <==> holds_text(gists, id, name, content),
{
    let ids = gists.map_values(|g: GistView| g.id);
    sort::lemma_first_position(ids, id);
    match gist_position(gists, id) {
        Some(i) => {
            law_gist_is_found(gists, id, i);
            let gist = gists[i];
            sort::lemma_first_position(gist.names(), name);
            if let Some(j) = sort::first_position(gist.names(), name) {
                assert(gist.names()[j] == gist.files[j].0);
                assert forall|k: int| 0 <= k < j implies (#[trigger] gist.files[k]).0 != name by {
                    assert(gist.names()[k] != name);
                }
                assert(stands_first(gists, id, i) && file_stands_first(gists[i], name, j));
                law_file_is_found(gist, name, j);
            }
            if holds_text(gists, id, name, content) {
                let (a, b) = choose|a: int, b: int| #[trigger]
                    stands_first(gists, id, a) && #[trigger] file_stands_first(gists[a], name, b)
                        && gists[a].files[b].1.content == Some(content);
                law_gist_is_found(gists, id, a);
                law_file_is_found(gists[a], name, b);
            }
        },
        None => {
            law_gist_is_found(gists, id, 0);
            if holds_text(gists, id, name, content) {
                let (a, b) = choose|a: int, b: int| #[trigger]
                    stands_first(gists, id, a) && #[trigger] file_stands_first(gists[a], name, b)
                        && gists[a].files[b].1.content == Some(content);
                assert(gists[a].id == id);
            }
        },
    }
}

/// Whether `name` is the name of a file and no other name comes before it.
pub open spec fn is_first_name(gist: GistView, name: Seq<char>) -> bool {
    &&& exists|j: int| 0 <= j < gist.files.len() && (#[trigger] gist.files[j]).0 == name
    &&& forall|j: int|
        0 <= j < gist.files.len() ==> text::text_le(name, (#[trigger] gist.files[j]).0)
}

/// The list of names starts with the one that no other comes before, and has one name for each file.
pub proof fn law_first_name(gist: GistView, name: Seq<char>)
    ensures
        gist.sorted_names().len() == gist.files.len(),
        gist.files.len() > 0 ==> is_first_name(gist, gist.sorted_names()[0]),
        is_first_name(gist, name) ==> gist.files.len() > 0 && gist.sorted_names()[0] == name,
{
    sort::law_sort_permutes(gist.names(), name_order());
    law_names_ascend(gist);
    let sorted = gist.sorted_names();
    if gist.files.len() > 0 {
        let first = sorted[0];
        assert(sorted.contains(first));
        sort::lemma_sort_contains(gist.names(), name_order(), first);
        let j = choose|j: int| 0 <= j < gist.names().len() && gist.names()[j] == first;
        assert(gist.files[j].0 == first);
        assert forall|k: int| 0 <= k < gist.files.len() implies text::text_le(
            first,
            (#[trigger] gist.files[k]).0,
        ) by {
            let other = gist.names()[k];
            assert(gist.names().contains(other));
            sort::lemma_sort_contains(gist.names(), name_order(), other);
            let m = choose|m: int| 0 <= m < sorted.len() && sorted[m] == other;
            if m == 0 {
                text::law_text_order(first, first, first);
            } else {
                assert(text::text_le(sorted[0], sorted[m]));
            }
        }
        if is_first_name(gist, name) {
            let m = choose|m: int| 0 <= m < gist.files.len() && (#[trigger] gist.files[m]).0 == name;
            assert(text::text_le(first, gist.files[m].0));
            assert(text::text_le(name, gist.files[j].0));
            text::law_text_order(first, name, name);
        }
    }
}

/// Putting a file into a gist touches nothing but its files, and adds one file at most.
pub proof fn law_inserting_touches_files_alone(gist: GistView, name: Seq<char>, file: GistFileView)
    ensures
        ({
            let after = gist.with_file(name, file);
            &&& after.id == gist.id
            &&& after.html_url == gist.html_url
            &&& after.description == gist.description
            &&& after.public == gist.public
            &&& after.created_at == gist.created_at
            &&& after.updated_at == gist.updated_at
            &&& after.files.len() == gist.files.len() + if gist.has_file(name) {
                0int
            } else {
                1
            }
        }),
{
    law_file_is_found(gist, name, 0);
    sort::lemma_first_position(gist.names(), name);
}

} // verus!
