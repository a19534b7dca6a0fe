use vstd::prelude::*;
use vstd::string::*;
use crate::text::{split, split_segments, strip, strip_separators, only_separators, views,
    lemma_strip_only_separators};

verus! {

/// Where a document is written: the output directory, the directories below
/// it, and the file's name.
#[derive(Debug, Clone)]
pub struct NotePath {
    pub base: String,
    pub segments: Vec<String>,
    pub title: String,
}

/// The directory that takes the documents without a category.
pub open spec fn root_label() -> Seq<char> {
    "My Notes"@
}

/// The directories that a category names: its pieces between separators,
/// once the separators at both ends are gone; the root label alone where
/// nothing is left.
pub open spec fn category_segments(category: Seq<char>) -> Seq<Seq<char>> {
    let inner = strip_separators(category);
    if inner.len() == 0 {
        seq![root_label()]
    } else {
        split_segments(inner)
    }
}

/// `base` followed by each segment, a separator before each.
pub open spec fn joined(base: Seq<char>, segments: Seq<Seq<char>>) -> Seq<char>
    decreases segments.len(),
{
    if segments.len() == 0 {
        base
    } else {
        joined(base, segments.drop_last()) + seq!['/'] + segments.last()
    }
}

impl NotePath {
    /// The directory of the document, as text.
    pub open spec fn spec_directory(&self) -> Seq<char> {
        joined(self.base@, views(self.segments@))
    }

    /// The file of the document, as text: the title below the directory,
    /// unchanged.
    pub open spec fn spec_file(&self) -> Seq<char> {
        self.spec_directory() + seq!['/'] + self.title@
    }

    /// The directory of the document, as text.
    pub fn directory(&self) -> (d: String)
        ensures
            d@ == self.spec_directory(),
    {
        let mut d = self.base.clone();
        let mut k: usize = 0;
        let n: usize = self.segments.len();
        proof {
            assert(views(self.segments@).subrange(0, 0) =~= Seq::<Seq<char>>::empty());
        }
        while k < n
            invariant
                k <= n,
                n == self.segments@.len(),
                d@ == joined(self.base@, views(self.segments@).subrange(0, k as int)),
            decreases n - k,
        {
            proof {
                reveal_strlit("/");
                let upto = views(self.segments@).subrange(0, k + 1);
                assert(upto.drop_last() =~= views(self.segments@).subrange(0, k as int));
                assert(upto.last() == self.segments@[k as int]@);
            }
            d.append("/");
            d.append(self.segments[k].as_str());
            k = k + 1;
        }
        proof {
            assert(views(self.segments@).subrange(0, n as int) =~= views(self.segments@));
        }
        d
    }

    /// The file of the document, as text.
    pub fn file(&self) -> (f: String)
        ensures
            f@ == self.spec_file(),
    {
        let mut f = self.directory();
        proof {
            reveal_strlit("/");
        }
        f.append("/");
        f.append(self.title.as_str());
        f
    }
}

/// Maps a category and a title to the place of the document below
/// `base_dir`. The title is the file's name as it stands.
pub fn resolve_path(base_dir: &str, category: &str, title: &str) -> (p: NotePath)
    ensures
        p.base@ == base_dir@,
        views(p.segments@) == category_segments(category@),
        p.title@ == title@,
{
    let inner = strip(category);
    let segments = if inner.as_str().unicode_len() == 0 {
        let mut only: Vec<String> = Vec::new();
        only.push(String::from_str("My Notes"));
        proof {
            assert(views(only@) =~= seq![root_label()]);
        }
        only
    } else {
        split(inner.as_str())
    };
    NotePath { base: String::from_str(base_dir), segments, title: String::from_str(title) }
}

/// A category made of separators alone, however many, names the same
/// directories as the empty category: the root label and nothing else.
pub proof fn lemma_separators_only_is_root(category: Seq<char>)
    requires
        only_separators(category),
    ensures
        category_segments(category) == category_segments(Seq::<char>::empty()),
        category_segments(category) == seq![root_label()],
{
    lemma_strip_only_separators(category);
    lemma_strip_only_separators(Seq::<char>::empty());
}

} // verus!
