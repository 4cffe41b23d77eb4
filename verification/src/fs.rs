use vstd::prelude::*;

verus! {

/// Ghost shape of a file: its indentation level, name and content.
#[verifier::ext_equal]
pub struct FileView {
    pub level: nat,
    pub name: Seq<char>,
    pub content: Seq<char>,
}

/// Ghost shape of a directory: its indentation level, name and children.
#[verifier::ext_equal]
pub struct DirView {
    pub level: nat,
    pub name: Seq<char>,
    pub children: Seq<EntryView>,
}

/// Ghost shape of a directory entry.
#[verifier::ext_equal]
pub enum EntryView {
    Directory(DirView),
    File(FileView),
}

impl EntryView {
    /// The entry's name.
    pub open spec fn name(self) -> Seq<char> {
        match self {
            EntryView::Directory(d) => d.name,
            EntryView::File(f) => f.name,
        }
    }

    /// The entry's indentation level.
    pub open spec fn level(self) -> nat {
        match self {
            EntryView::Directory(d) => d.level,
            EntryView::File(f) => f.level,
        }
    }

    /// How many directory layers sit below this entry; a file has none.
    pub open spec fn height(self) -> nat
        decreases self,
    {
        match self {
            EntryView::Directory(d) => 1 + seq_height(d.children),
            EntryView::File(_) => 0,
        }
    }

    /// The entry, re-levelled: it gets `level`, each child one more, and
    /// so on down.
    pub open spec fn with_level(self, level: nat) -> EntryView
        decreases self,
    {
        match self {
            EntryView::Directory(d) => EntryView::Directory(
                DirView { level, name: d.name, children: seq_with_level(d.children, level + 1) },
            ),
            EntryView::File(f) => EntryView::File(
                FileView { level, name: f.name, content: f.content },
            ),
        }
    }
}

/// The largest height among the entries.
pub open spec fn seq_height(s: Seq<EntryView>) -> nat
    decreases s,
{
    if s.len() == 0 {
        0
    } else {
        let rest = seq_height(s.drop_last());
        let last = s.last().height();
        if rest >= last {
            rest
        } else {
            last
        }
    }
}

/// Every entry re-levelled to `level`.
pub open spec fn seq_with_level(s: Seq<EntryView>, level: nat) -> Seq<EntryView>
    decreases s,
{
    if s.len() == 0 {
        Seq::empty()
    } else {
        seq_with_level(s.drop_last(), level).push(s.last().with_level(level))
    }
}

/// `seq_with_level` acts pointwise.
pub proof fn lemma_seq_with_level(s: Seq<EntryView>, level: nat)
    ensures
        seq_with_level(s, level).len() == s.len(),
        forall|i: int| 0 <= i < s.len()
            ==> #[trigger] seq_with_level(s, level)[i] == s[i].with_level(level),
    decreases s,
{
    if s.len() > 0 {
        lemma_seq_with_level(s.drop_last(), level);
    }
}

/// An entry's height bounds each element's height.
pub proof fn lemma_seq_height_bound(s: Seq<EntryView>, i: int)
    requires
        0 <= i < s.len(),
    ensures
        s[i].height() <= seq_height(s),
    decreases s,
{
    if i < s.len() - 1 {
        lemma_seq_height_bound(s.drop_last(), i);
    }
}

/// A directory of the mock filesystem: a named node with entries below it.
pub struct Directory {
    pub(crate) level: usize,
    pub(crate) name: String,
    pub(crate) children: Vec<FSEntry>,
}

/// A file of the mock filesystem: a named leaf with text content.
pub struct File {
    pub(crate) level: usize,
    pub(crate) name: String,
    pub(crate) content: String,
}

/// A directory entry: either a directory or a file.
pub enum FSEntry {
    Directory(Directory),
    File(File),
}

/// The abstraction of a directory.
pub closed spec fn dir_view(d: Directory) -> DirView
    decreases d,
{
    DirView { level: d.level as nat, name: d.name@, children: entries_view(d.children@) }
}

/// The abstraction of a file.
pub closed spec fn file_view(f: File) -> FileView {
    FileView { level: f.level as nat, name: f.name@, content: f.content@ }
}

/// The abstraction of a sequence of entries.
pub closed spec fn entries_view(s: Seq<FSEntry>) -> Seq<EntryView>
    decreases s,
{
    if s.len() == 0 {
        Seq::empty()
    } else {
        entries_view(s.drop_last()).push(entry_view(s.last()))
    }
}

/// The abstraction of an entry.
pub closed spec fn entry_view(e: FSEntry) -> EntryView
    decreases e,
{
    match e {
        FSEntry::Directory(d) => EntryView::Directory(dir_view(d)),
        FSEntry::File(f) => EntryView::File(file_view(f)),
    }
}

/// `entries_view` acts pointwise.
pub proof fn lemma_entries_view(s: Seq<FSEntry>)
    ensures
        entries_view(s).len() == s.len(),
        forall|i: int| 0 <= i < s.len() ==> #[trigger] entries_view(s)[i] == entry_view(s[i]),
    decreases s,
{
    if s.len() > 0 {
        lemma_entries_view(s.drop_last());
    }
}

impl View for Directory {
    type V = DirView;

    open spec fn view(&self) -> DirView {
        dir_view(*self)
    }
}

impl View for File {
    type V = FileView;

    open spec fn view(&self) -> FileView {
        file_view(*self)
    }
}

impl View for FSEntry {
    type V = EntryView;

    open spec fn view(&self) -> EntryView {
        entry_view(*self)
    }
}

/// Re-levels an owned entry: the entry gets `level`, its children one
/// more, and so on down the tree.
#[verifier::loop_isolation(false)]
fn entry_with_level(e: FSEntry, level: usize) -> (r: FSEntry)
    requires
        level + e@.height() <= usize::MAX,
    ensures
        r@ == e@.with_level(level as nat),
    decreases e,
{
    let ghost e0 = e;
    match e {
        FSEntry::File(mut f) => {
            f.level = level;
            FSEntry::File(f)
        },
        FSEntry::Directory(mut d) => {
            let ghost d0 = d;
            d.level = level;
            let mut rest: Vec<FSEntry> = Vec::new();
            core::mem::swap(&mut rest, &mut d.children);
            let mut done: Vec<FSEntry> = Vec::new();
            proof {
                lemma_entries_view(rest@);
                lemma_seq_with_level(entries_view(rest@), level as nat + 1);
            }
            while rest.len() > 0
                invariant
                    level + 1 + seq_height(entries_view(d0.children@)) <= usize::MAX,
                    done@.len() + rest@.len() == d0.children@.len(),
                    forall|i: int| 0 <= i < rest@.len()
                        ==> #[trigger] rest@[i] == d0.children@[done@.len() + i],
                    entries_view(done@) =~= seq_with_level(
                        entries_view(d0.children@),
                        level as nat + 1,
                    ).take(done@.len() as int),
                decreases rest@.len(),
            {
                proof {
                    lemma_entries_view(d0.children@);
                    lemma_entries_view(rest@);
                    lemma_seq_height_bound(entries_view(d0.children@), done@.len() as int);
                }
                let ghost k = done@.len() as int;
                let c = rest.remove(0);
                proof {
                    lemma_seq_with_level(entries_view(d0.children@), level as nat + 1);
                    assert(c == d0.children@[k]);
                    assert(decreases_to!(e0 => e0->Directory_0));
                    assert(decreases_to!(d0 => d0.children));
                    assert(decreases_to!(d0.children => d0.children@));
                    assert(decreases_to!(d0.children@ => d0.children@[k]));
                    assert(decreases_to!(e0 => c));
                }
                let c2 = entry_with_level(c, level + 1);
                let ghost done0 = done@;
                done.push(c2);
                proof {
                    lemma_entries_view(d0.children@);
                    lemma_entries_view(done0);
                    lemma_entries_view(done@);
                    lemma_seq_with_level(entries_view(d0.children@), level as nat + 1);
                    assert(entries_view(done@) =~= seq_with_level(
                        entries_view(d0.children@),
                        level as nat + 1,
                    ).take(done@.len() as int));
                }
            }
            d.children = done;
            proof {
                assert(seq_with_level(entries_view(d0.children@), level as nat + 1).take(
                    d0.children@.len() as int,
                ) =~= seq_with_level(entries_view(d0.children@), level as nat + 1)) by {
                    lemma_seq_with_level(entries_view(d0.children@), level as nat + 1);
                    lemma_entries_view(d0.children@);
                };
                assert(entry_view(FSEntry::Directory(d)) =~~= e0@.with_level(level as nat));
            }
            FSEntry::Directory(d)
        },
    }
}

impl Directory {
    /// A new directory: named, empty, at level zero.
    pub fn new_empty(name: &str) -> (d: Self)
        ensures
            d@ == (DirView { level: 0, name: name@, children: Seq::empty() }),
    {
        let d = Directory { name: name.to_owned(), children: Vec::new(), level: 0 };
        proof {
            assert(d@ =~~= (DirView { level: 0, name: name@, children: Seq::empty() }));
        }
        d
    }

    /// Replaces the children with the given entries, each re-levelled to
    /// sit directly below this directory.
    #[verifier::loop_isolation(false)]
    pub fn with_entries(self, entries: Vec<FSEntry>) -> (d: Self)
        requires
            self@.level + 1 + seq_height(entries_view(entries@)) <= usize::MAX,
        ensures
            d@ == (DirView {
                level: self@.level,
                name: self@.name,
                children: seq_with_level(entries_view(entries@), self@.level + 1),
            }),
    {
        let mut this = self;
        let ghost entries0 = entries@;
        let mut rest = entries;
        let mut done: Vec<FSEntry> = Vec::new();
        proof {
            lemma_entries_view(rest@);
            lemma_seq_with_level(entries_view(rest@), this.level as nat + 1);
        }
        while rest.len() > 0
            invariant
                this.level + 1 + seq_height(entries_view(entries0)) <= usize::MAX,
                done@.len() + rest@.len() == entries0.len(),
                forall|i: int| 0 <= i < rest@.len()
                    ==> #[trigger] rest@[i] == entries0[done@.len() + i],
                entries_view(done@) =~= seq_with_level(
                    entries_view(entries0),
                    this.level as nat + 1,
                ).take(done@.len() as int),
            decreases rest@.len(),
        {
            proof {
                lemma_entries_view(entries0);
                lemma_entries_view(rest@);
                lemma_seq_height_bound(entries_view(entries0), done@.len() as int);
            }
            let ghost k = done@.len() as int;
            let c = rest.remove(0);
            proof {
                lemma_seq_with_level(entries_view(entries0), this.level as nat + 1);
                assert(c == entries0[k]);
            }
            let c2 = entry_with_level(c, this.level + 1);
            let ghost done0 = done@;
            done.push(c2);
            proof {
                lemma_entries_view(entries0);
                lemma_entries_view(done0);
                lemma_entries_view(done@);
                lemma_seq_with_level(entries_view(entries0), this.level as nat + 1);
                assert(entries_view(done@) =~= seq_with_level(
                    entries_view(entries0),
                    this.level as nat + 1,
                ).take(done@.len() as int));
            }
        }
        this.children = done;
        proof {
            lemma_entries_view(entries0);
            lemma_seq_with_level(entries_view(entries0), this.level as nat + 1);
            assert(seq_with_level(entries_view(entries0), this.level as nat + 1).take(
                entries0.len() as int,
            ) =~= seq_with_level(entries_view(entries0), this.level as nat + 1));
            assert(this@ =~~= (DirView {
                level: this.level as nat,
                name: this.name@,
                children: seq_with_level(entries_view(entries0), this.level as nat + 1),
            }));
        }
        this
    }

    /// The directory's name.
    pub fn name(&self) -> (n: &str)
        ensures
            n@ == self@.name,
    {
        self.name.as_str()
    }

    /// Adds an entry directly below this directory, unless one with the
    /// same name is already there; then nothing changes.
    #[verifier::loop_isolation(false)]
    pub fn add_entry(&mut self, entry: FSEntry)
        requires
            old(self)@.level + 1 + entry@.height() <= usize::MAX,
        ensures
            final(self)@ == (if (exists|i: int|
                0 <= i < old(self)@.children.len()
                    && #[trigger] old(self)@.children[i].name() == entry@.name()) {
                old(self)@
            } else {
                DirView {
                    level: old(self)@.level,
                    name: old(self)@.name,
                    children: old(self)@.children.push(
                        entry@.with_level(old(self)@.level + 1),
                    ),
                }
            }),
    {
        proof {
            lemma_entries_view(self.children@);
        }
        let new_name: String = match &entry {
            FSEntry::Directory(d) => d.name.clone(),
            FSEntry::File(f) => f.name.clone(),
        };
        let mut i: usize = 0;
        while i < self.children.len()
            invariant
                self == old(self),
                0 <= i <= self.children@.len(),
                new_name@ == entry@.name(),
                forall|j: int| 0 <= j < i
                    ==> #[trigger] entries_view(self.children@)[j].name() != entry@.name(),
                forall|j: int| 0 <= j < self.children@.len()
                    ==> #[trigger] entries_view(self.children@)[j] == entry_view(
                    self.children@[j],
                ),
            decreases self.children@.len() - i,
        {
            let child_name: String = match &self.children[i] {
                FSEntry::Directory(d) => d.name.clone(),
                FSEntry::File(f) => f.name.clone(),
            };
            if child_name.eq(&new_name) {
                proof {
                    lemma_entries_view(self.children@);
                    assert(old(self)@.children[i as int].name() == entry@.name());
                }
                return;
            }
            i += 1;
        }

        let entry = entry_with_level(entry, self.level + 1);
        self.children.push(entry);
        proof {
            lemma_entries_view(old(self).children@);
            lemma_entries_view(self.children@);
            assert(entries_view(self.children@) =~= entries_view(old(self).children@).push(
                entry@,
            ));
            assert(final(self)@ =~~= (DirView {
                level: old(self)@.level,
                name: old(self)@.name,
                children: old(self)@.children.push(entry@),
            }));
        }
    }

    /// Re-levels the whole subtree: this directory gets `level`, each
    /// child one more, and so on down.
    pub fn set_level(&mut self, level: usize)
        requires
            level + 1 + seq_height(old(self)@.children) <= usize::MAX,
        ensures
            final(self)@ == (DirView {
                level: level as nat,
                name: old(self)@.name,
                children: seq_with_level(old(self)@.children, level as nat + 1),
            }),
    {
        let mut d = Directory { level: 0, name: String::new(), children: Vec::new() };
        core::mem::swap(&mut d, self);
        let e = entry_with_level(FSEntry::Directory(d), level);
        match e {
            FSEntry::Directory(d2) => {
                *self = d2;
            },
            FSEntry::File(_) => {
                proof {
                    assert(false);
                }
            },
        }
    }
}

impl File {
    /// A new file: named, empty, at level zero.
    pub fn new(name: &str) -> (f: Self)
        ensures
            f@ == (FileView { level: 0, name: name@, content: Seq::empty() }),
    {
        let f = File { name: name.to_owned(), content: String::new(), level: 0 };
        proof {
            assert(f@ =~~= (FileView { level: 0, name: name@, content: Seq::empty() }));
        }
        f
    }

    /// The same file with its content replaced.
    pub fn with_content(self, content: String) -> (f: Self)
        ensures
            f@ == (FileView { level: self@.level, name: self@.name, content: content@ }),
    {
        let mut this = self;
        this.content = content;
        this
    }

    /// Files have no children, so re-levelling stops here.
    pub fn set_level(&mut self, level: usize)
        ensures
            final(self)@ == (FileView {
                level: level as nat,
                name: old(self)@.name,
                content: old(self)@.content,
            }),
    {
        self.level = level;
    }

    /// The file's content.
    pub fn content(&self) -> (c: &str)
        ensures
            c@ == self@.content,
    {
        self.content.as_str()
    }

    /// Concatenates `content` onto the file.
    pub fn append(&mut self, content: &str)
        ensures
            final(self)@ == (FileView {
                level: old(self)@.level,
                name: old(self)@.name,
                content: old(self)@.content + content@,
            }),
    {
        self.content.append(content);
    }
}

impl FSEntry {
    /// The entry's name.
    pub fn name(&self) -> (n: &str)
        ensures
            n@ == self@.name(),
    {
        match self {
            FSEntry::Directory(d) => d.name.as_str(),
            FSEntry::File(f) => f.name.as_str(),
        }
    }

    /// A new empty directory entry.
    pub fn new_dir(name: &str) -> (e: FSEntry)
        ensures
            e@ == EntryView::Directory(DirView { level: 0, name: name@, children: Seq::empty() }),
    {
        FSEntry::Directory(Directory::new_empty(name))
    }

    /// A new empty file entry.
    pub fn new_file(name: &str) -> (e: FSEntry)
        ensures
            e@ == EntryView::File(FileView { level: 0, name: name@, content: Seq::empty() }),
    {
        FSEntry::File(File::new(name))
    }

    /// Re-levels the entry and everything below it.
    pub fn set_level(&mut self, level: usize)
        requires
            level + old(self)@.height() <= usize::MAX,
        ensures
            final(self)@ == old(self)@.with_level(level as nat),
    {
        let mut e = FSEntry::File(File { level: 0, name: String::new(), content: String::new() });
        core::mem::swap(&mut e, self);
        *self = entry_with_level(e, level);
    }

    /// The entry's indentation level.
    pub fn level(&self) -> (l: usize)
        ensures
            l as nat == self@.level(),
    {
        match self {
            FSEntry::Directory(d) => d.level,
            FSEntry::File(f) => f.level,
        }
    }
}

/// The card of the mock filesystem lessons: it owns the root directory.
pub struct SDCard {
    pub(crate) root: Directory,
}

impl SDCard {
    /// The root directory.
    pub closed spec fn spec_root(&self) -> Directory {
        self.root
    }

    /// Mounting gives a card with an empty root directory.
    pub fn mount(root: &'static str) -> (card: Self)
        ensures
            card.spec_root()@ == (DirView { level: 0, name: root@, children: Seq::empty() }),
    {
        Self { root: Directory::new_empty(root) }
    }

    /// A borrow of the root directory.
    pub fn root(&self) -> (r: &Directory)
        ensures
            *r == self.spec_root(),
    {
        &self.root
    }

    /// A mutable borrow of the root directory.
    pub fn root_mut(&mut self) -> (r: &mut Directory)
        ensures
            *r == old(self).spec_root(),
            final(self).spec_root() == *final(r),
    {
        &mut self.root
    }
}

impl Default for SDCard {
    /// The default card is mounted at the usual root.
    fn default() -> (card: Self)
        ensures
            card.spec_root()@ == (DirView { level: 0, name: "sd://"@, children: Seq::empty() }),
    {
        SDCard::mount("sd://")
    }
}

/// A cursor over the entries directly below one directory.
pub struct FSEntryIter<'a> {
    root: &'a Directory,
    index: usize,
}

impl<'a> FSEntryIter<'a> {
    /// The directory being walked.
    pub closed spec fn spec_root(&self) -> Directory {
        *self.root
    }

    /// How far the cursor has come.
    pub closed spec fn spec_index(&self) -> int {
        self.index as int
    }

    /// A cursor standing at the first entry.
    pub fn new(dir: &'a Directory) -> (it: Self)
        ensures
            it.spec_root() == *dir,
            it.spec_index() == 0,
    {
        Self { root: dir, index: 0 }
    }

    /// The entry under the cursor, or `None` past the end; the cursor
    /// advances by one.
    pub fn next(&mut self) -> (r: Option<&'a FSEntry>)
        ensures
            final(self).spec_root() == old(self).spec_root(),
            old(self).spec_index() < old(self).spec_root()@.children.len() ==> {
                &&& final(self).spec_index() == old(self).spec_index() + 1
                &&& r matches Some(e) && e@ == old(self).spec_root()@.children[old(
                    self,
                ).spec_index()]
            },
            old(self).spec_index() >= old(self).spec_root()@.children.len() ==> {
                &&& final(self).spec_index() == old(self).spec_index()
                &&& r is None
            },
    {
        proof {
            lemma_entries_view(self.root.children@);
        }
        if self.index >= self.root.children.len() {
            return None;
        }

        let el = &self.root.children[self.index];
        self.index += 1;

        Some(el)
    }
}

impl Directory {
    /// A cursor over this directory's entries.
    pub fn iter(&self) -> (it: FSEntryIter<'_>)
        ensures
            it.spec_root() == *self,
            it.spec_index() == 0,
    {
        FSEntryIter::new(self)
    }
}

impl From<Directory> for FSEntry {
    fn from(value: Directory) -> (e: FSEntry) {
        FSEntry::Directory(value)
    }
}

impl vstd::std_specs::convert::FromSpecImpl<Directory> for FSEntry {
    open spec fn obeys_from_spec() -> bool {
        true
    }

    open spec fn from_spec(value: Directory) -> FSEntry {
        FSEntry::Directory(value)
    }
}

impl From<File> for FSEntry {
    fn from(value: File) -> (e: FSEntry) {
        FSEntry::File(value)
    }
}

impl vstd::std_specs::convert::FromSpecImpl<File> for FSEntry {
    open spec fn obeys_from_spec() -> bool {
        true
    }

    open spec fn from_spec(value: File) -> FSEntry {
        FSEntry::File(value)
    }
}

impl Directory {
    /// Converts an entry back into a directory; a file entry is refused
    /// with a message.
    pub fn try_from(value: FSEntry) -> (r: Result<Directory, String>)
        ensures
            match r {
                Ok(d) => value matches FSEntry::Directory(d0) && d == d0,
                Err(msg) => value is File && msg@ == "Cannot convert file into directory"@,
            },
    {
        match value {
            FSEntry::Directory(dir) => Ok(dir),
            FSEntry::File(_) => Err("Cannot convert file into directory".to_owned()),
        }
    }
}

impl File {
    /// Converts an entry back into a file; a directory entry is refused
    /// with a message.
    pub fn try_from(value: FSEntry) -> (r: Result<File, String>)
        ensures
            match r {
                Ok(f) => value matches FSEntry::File(f0) && f == f0,
                Err(msg) => value is Directory && msg@ == "Cannot convert directory into file"@,
            },
    {
        match value {
            FSEntry::Directory(_) => Err("Cannot convert directory into file".to_owned()),
            FSEntry::File(file) => Ok(file),
        }
    }
}

/// The text of one rendered entry: a file shows its name and content, a
/// directory renders as a whole subtree.
pub open spec fn spec_render_entry(e: EntryView) -> Seq<char>
    decreases e,
{
    match e {
        EntryView::File(f) => f.name + seq![' ', '-', '>', ' ', '{'] + f.content + seq!['}'],
        EntryView::Directory(d) => spec_render_dir(d),
    }
}

/// The rendered lines of a directory's children: each entry indented by
/// one tab per level and finished with a newline.
pub open spec fn spec_render_entries(s: Seq<EntryView>) -> Seq<char>
    decreases s,
{
    if s.len() == 0 {
        Seq::empty()
    } else {
        spec_render_entries(s.drop_last()) + crate::strutil::spec_repeat(
            '\t',
            s.last().level(),
        ) + spec_render_entry(s.last()) + seq!['\n']
    }
}

/// The text of a rendered directory: its name, then its children's lines,
/// separated by a newline only when there are any.
pub open spec fn spec_render_dir(d: DirView) -> Seq<char>
    decreases d,
{
    d.name + (if spec_render_entries(d.children).len() == 0 {
        Seq::<char>::empty()
    } else {
        seq!['\n']
    }) + spec_render_entries(d.children)
}

/// Renders one entry, as [`spec_render_entry`] lays down.
#[verifier::loop_isolation(false)]
fn render_entry(e: &FSEntry) -> (out: String)
    ensures
        out@ == spec_render_entry(e@),
    decreases *e,
{
    match e {
        FSEntry::File(f) => {
            let mut out = f.name.clone();
            out.append(" -> {");
            out.append(f.content.as_str());
            out.append("}");
            proof {
                reveal_strlit(" -> {");
                reveal_strlit("}");
                assert(" -> {"@ =~= seq![' ', '-', '>', ' ', '{']);
                assert("}"@ =~= seq!['}']);
            }
            out
        },
        FSEntry::Directory(d) => {
            let ghost e0 = *e;
            proof {
                assert(decreases_to!(e0 => e0->Directory_0));
            }
            render_dir(d)
        },
    }
}

/// Renders a directory subtree, as [`spec_render_dir`] lays down.
#[verifier::loop_isolation(false)]
pub fn render_dir(d: &Directory) -> (out: String)
    ensures
        out@ == spec_render_dir(d@),
    decreases *d,
{
    proof {
        lemma_entries_view(d.children@);
    }
    let mut children = String::new();
    let mut i: usize = 0;
    proof {
        assert(d.children@.take(0) =~= Seq::<FSEntry>::empty());
        assert(entries_view(d.children@.take(0)) =~= Seq::<EntryView>::empty());
        assert(entries_view(d.children@).take(0) =~= Seq::<EntryView>::empty());
    }
    while i < d.children.len()
        invariant
            0 <= i <= d.children@.len(),
            children@ == spec_render_entries(entries_view(d.children@).take(i as int)),
        decreases d.children@.len() - i,
    {
        let child = &d.children[i];
        proof {
            let ghost d0 = *d;
            assert(decreases_to!(d0 => d0.children));
            assert(decreases_to!(d0.children => d0.children@));
            assert(decreases_to!(d0.children@ => d0.children@[i as int]));
        }
        let tabs = crate::strutil::repeat_char('\t', child.level());
        children.append(tabs.as_str());
        let rendered = render_entry(child);
        children.append(rendered.as_str());
        children.append("\n");
        proof {
            reveal_strlit("\n");
            assert("\n"@ =~= seq!['\n']);
            let pre = entries_view(d.children@).take(i as int);
            let cur = entries_view(d.children@).take(i as int + 1);
            assert(cur.drop_last() =~= pre);
            assert(cur.last() == entry_view(d.children@[i as int]));
            assert(children@ =~= spec_render_entries(cur));
        }
        i += 1;
    }

    proof {
        assert(entries_view(d.children@).take(d.children@.len() as int) =~= entries_view(
            d.children@,
        ));
    }
    let mut out = d.name.clone();
    if !children.as_str().is_empty() {
        out.append("\n");
        proof {
            reveal_strlit("\n");
            assert("\n"@ =~= seq!['\n']);
        }
    }
    out.append(children.as_str());
    proof {
        assert(entries_view(d.children@).take(d.children@.len() as int) =~= entries_view(
            d.children@,
        ));
        assert(out@ =~= spec_render_dir(d@));
    }
    out
}

} // verus!
