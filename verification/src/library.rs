use vstd::prelude::*;

verus! {

/// The file types (by extension) that go into a play queue.
pub open spec fn is_supported_type(ext: Option<Seq<char>>) -> bool {
    match ext {
        Some(e) => e == "ogg"@ || e == "wav"@ || e == "mp3"@ || e == "flac"@,
        None => false,
    }
}

/// Whether a file with extension `ext` goes into a play queue.
pub fn is_supported(ext: &Option<String>) -> (r: bool)
    ensures
        r == is_supported_type(ext.deep_view()),
{
    match ext {
        Some(e) => {
            let ogg = "ogg".to_owned();
            let wav = "wav".to_owned();
            let mp3 = "mp3".to_owned();
            let flac = "flac".to_owned();
            *e == ogg || *e == wav || *e == mp3 || *e == flac
        },
        None => false,
    }
}

/// What a folder holds, in the order in which it was listed: files, each with
/// the extension of its name where that extension is text, and folders with
/// what they hold.
pub enum Entry<P> {
    File { path: P, ext: Option<String> },
    Dir { entries: Vec<Entry<P>> },
}

/// A file met on a walk through a folder tree.
pub struct FileRef<P> {
    pub path: P,
    pub ext: Option<Seq<char>>,
}

/// The files of `entries`, folder contents in place of each folder, in the
/// order in which they were listed.
pub open spec fn walk<P>(entries: Seq<Entry<P>>) -> Seq<FileRef<P>>
    decreases entries,
{
    if entries.len() == 0 {
        Seq::empty()
    } else {
        let rest = walk(entries.subrange(1, entries.len() as int));
        match entries[0] {
            Entry::File { path, ext } => seq![FileRef { path, ext: ext.deep_view() }] + rest,
            Entry::Dir { entries: sub } => walk(sub@) + rest,
        }
    }
}

/// The play queue made of a folder tree: the paths of its files of a supported
/// type, in walk order.
pub open spec fn queue_of<P>(entries: Seq<Entry<P>>) -> Seq<P> {
    walk(entries).filter(|f: FileRef<P>| is_supported_type(f.ext)).map_values(|f: FileRef<P>| f.path)
}

/// What the first entry of a folder listing adds to the queue.
pub open spec fn entry_queue<P>(entry: Entry<P>) -> Seq<P> {
    match entry {
        Entry::File { path, ext } => if is_supported_type(ext.deep_view()) {
            seq![path]
        } else {
            Seq::empty()
        },
        Entry::Dir { entries: sub } => queue_of(sub@),
    }
}

/// The queue of a concatenation of files is the concatenation of their queues.
pub proof fn lemma_supported_paths_add<P>(a: Seq<FileRef<P>>, b: Seq<FileRef<P>>)
    ensures
        (a + b).filter(|f: FileRef<P>| is_supported_type(f.ext)).map_values(|f: FileRef<P>| f.path)
            == a.filter(|f: FileRef<P>| is_supported_type(f.ext)).map_values(|f: FileRef<P>| f.path)
            + b.filter(|f: FileRef<P>| is_supported_type(f.ext)).map_values(|f: FileRef<P>| f.path),
{
    let pred = |f: FileRef<P>| is_supported_type(f.ext);
    let proj = |f: FileRef<P>| f.path;
    Seq::filter_distributes_over_add(a, b, pred);
    let fa = a.filter(pred);
    let fb = b.filter(pred);
    assert((fa + fb).map_values(proj) =~= fa.map_values(proj) + fb.map_values(proj));
}

proof fn lemma_queue_unfold<P>(entries: Seq<Entry<P>>)
    requires
        entries.len() > 0,
    ensures
        queue_of(entries) == entry_queue(entries[0]) + queue_of(entries.subrange(1, entries.len() as int)),
{
    let rest = entries.subrange(1, entries.len() as int);
    let pred = |f: FileRef<P>| is_supported_type(f.ext);
    match entries[0] {
        Entry::File { path, ext } => {
            let head = seq![FileRef { path, ext: ext.deep_view() }];
            lemma_supported_paths_add(head, walk(rest));
            reveal_with_fuel(Seq::filter, 2);
            assert(head.drop_last() =~= Seq::<FileRef<P>>::empty());
            if is_supported_type(ext.deep_view()) {
                assert(head.filter(pred) =~= head);
            } else {
                assert(head.filter(pred) =~= Seq::<FileRef<P>>::empty());
            }
        },
        Entry::Dir { entries: sub } => {
            lemma_supported_paths_add(walk(sub@), walk(rest));
        },
    }
}

/// The play queue of a folder tree: the paths of its files whose extension is
/// one of the supported types, in the order in which the folders were listed,
/// the files of a sub-folder in the place of that folder.
#[verifier::loop_isolation(false)]
pub fn build_queue<P>(entries: Vec<Entry<P>>) -> (queue: Vec<P>)
    ensures
        queue@ == queue_of(entries@),
    decreases entries@,
{
    let ghost all = entries@;
    let mut rest = entries;
    let mut queue: Vec<P> = Vec::new();
    let ghost mut k: int = 0;
    while rest.len() > 0
        invariant
            0 <= k <= all.len(),
            rest@ == all.subrange(k, all.len() as int),
            queue_of(all) == queue@ + queue_of(rest@),
        decreases rest.len(),
    {
        let ghost before = rest@;
        proof {
            lemma_queue_unfold(before);
        }
        let entry = rest.remove(0);
        assert(rest@ =~= before.subrange(1, before.len() as int));
        match entry {
            Entry::File { path, ext } => {
                if is_supported(&ext) {
                    queue.push(path);
                }
            },
            Entry::Dir { entries: sub } => {
                proof {
                    assert(all[k] == before[0]);
                    assert(decreases_to!(all => sub@));
                }
                let mut part = build_queue(sub);
                queue.append(&mut part);
            },
        }
        proof {
            k = k + 1;
            assert(rest@ =~= all.subrange(k, all.len() as int));
        }
    }
    assert(queue_of(rest@) =~= Seq::<P>::empty()) by {
        assert(walk(rest@) =~= Seq::<FileRef<P>>::empty());
    }
    assert(queue@ + queue_of(rest@) =~= queue@);
    queue
}

/// Walking two listings one after the other meets the files of the first,
/// then those of the second.
pub proof fn lemma_walk_add<P>(a: Seq<Entry<P>>, b: Seq<Entry<P>>)
    ensures
        walk(a + b) == walk(a) + walk(b),
    decreases a.len(),
{
    if a.len() == 0 {
        assert(a + b =~= b);
        assert(walk(a) + walk(b) =~= walk(b));
    } else {
        let ab = a + b;
        let a_rest = a.subrange(1, a.len() as int);
        assert(ab[0] == a[0]);
        assert(ab.subrange(1, ab.len() as int) =~= a_rest + b);
        lemma_walk_add(a_rest, b);
        match a[0] {
            Entry::File { path, ext } => {
                let head = seq![FileRef { path, ext: ext.deep_view() }];
                assert(head + (walk(a_rest) + walk(b)) =~= (head + walk(a_rest)) + walk(b));
            },
            Entry::Dir { entries: sub } => {
                assert(walk(sub@) + (walk(a_rest) + walk(b)) =~= (walk(sub@) + walk(a_rest)) + walk(b));
            },
        }
    }
}

/// The queue of two listings taken one after the other is the queue of the
/// first followed by the queue of the second.
pub proof fn lemma_queue_add<P>(a: Seq<Entry<P>>, b: Seq<Entry<P>>)
    ensures
        queue_of(a + b) == queue_of(a) + queue_of(b),
{
    lemma_walk_add(a, b);
    lemma_supported_paths_add(walk(a), walk(b));
}

/// Whether `files` holds a file at `path` whose type is supported.
pub open spec fn has_supported_file<P>(files: Seq<FileRef<P>>, path: P) -> bool {
    exists|j: int| 0 <= j < files.len() && files[j].path == path && is_supported_type(#[trigger] files[j].ext)
}

/// Every track of a queue is a file of the tree whose type is supported, and
/// the queue holds no more tracks than the tree holds files.
pub proof fn lemma_queue_only_supported<P>(entries: Seq<Entry<P>>)
    ensures
        queue_of(entries).len() <= walk(entries).len(),
        forall|i: int|
            0 <= i < queue_of(entries).len() ==> has_supported_file(walk(entries), #[trigger] queue_of(entries)[i]),
{
    let files = walk(entries);
    let pred = |f: FileRef<P>| is_supported_type(f.ext);
    let kept = files.filter(pred);
    files.lemma_filter_len(pred);
    assert forall|i: int| 0 <= i < queue_of(entries).len() implies has_supported_file(walk(entries), #[trigger] queue_of(entries)[i]) by {
        files.lemma_filter_pred(pred, i);
        assert(kept.contains(kept[i]));
        files.lemma_filter_contains_rev(pred, kept[i]);
        let j: int = choose|j: int| 0 <= j < files.len() && files[j] == kept[i];
        assert(queue_of(entries)[i] == kept[i].path);
        assert(is_supported_type(files[j].ext));
    }
}

/// A file goes into a play queue exactly when it has an extension and that
/// extension is "ogg", "wav", "mp3" or "flac", written so.
pub proof fn lemma_supported_types(e: Seq<char>)
    ensures
        is_supported_type(Some(e)) <==> (e == "ogg"@ || e == "wav"@ || e == "mp3"@ || e == "flac"@),
        !is_supported_type(None),
{
}

/// Whether `files` holds a file at `path` whose extension is "ogg", "wav",
/// "mp3" or "flac".
pub open spec fn has_audio_file<P>(files: Seq<FileRef<P>>, path: P) -> bool {
    exists|j: int|
        0 <= j < files.len() && files[j].path == path && (#[trigger] files[j].ext matches Some(e) && (e == "ogg"@
            || e == "wav"@ || e == "mp3"@ || e == "flac"@))
}

/// Every track of a queue is a file of the tree with extension "ogg", "wav",
/// "mp3" or "flac": nothing else, such as a cover image, is ever queued.
pub proof fn lemma_queue_audio_only<P>(entries: Seq<Entry<P>>)
    ensures
        forall|i: int| 0 <= i < queue_of(entries).len() ==> has_audio_file(walk(entries), #[trigger] queue_of(entries)[i]),
{
    lemma_queue_only_supported(entries);
    assert forall|i: int| 0 <= i < queue_of(entries).len() implies has_audio_file(walk(entries), #[trigger] queue_of(entries)[i]) by {
        assert(has_supported_file(walk(entries), queue_of(entries)[i]));
        let files = walk(entries);
        let j: int = choose|j: int| 0 <= j < files.len() && files[j].path == queue_of(entries)[i] && is_supported_type(#[trigger] files[j].ext);
        assert(files[j].ext matches Some(e) && (e == "ogg"@ || e == "wav"@ || e == "mp3"@ || e == "flac"@));
    }
}

/// A listing of one file gives the one-track queue of that file where its
/// extension is "ogg", "wav", "mp3" or "flac", and the empty queue otherwise.
pub proof fn lemma_queue_single_file<P>(path: P, ext: Option<String>)
    ensures
        queue_of(seq![Entry::File { path, ext }]) == if (ext.deep_view() matches Some(e) && (e == "ogg"@ || e == "wav"@
            || e == "mp3"@ || e == "flac"@)) {
            seq![path]
        } else {
            Seq::<P>::empty()
        },
{
    let entries = seq![Entry::File { path, ext }];
    lemma_queue_unfold(entries);
    assert(entries.subrange(1, 1) =~= Seq::<Entry<P>>::empty());
    assert(walk(Seq::<Entry<P>>::empty()) =~= Seq::<FileRef<P>>::empty());
    assert(queue_of(Seq::<Entry<P>>::empty()) =~= Seq::<P>::empty());
    if ext.deep_view() matches Some(e) && (e == "ogg"@ || e == "wav"@ || e == "mp3"@ || e == "flac"@) {
        assert(entry_queue(entries[0]) + Seq::<P>::empty() =~= seq![path]);
    } else {
        assert(entry_queue(entries[0]) + Seq::<P>::empty() =~= Seq::<P>::empty());
    }
}

/// A listing of one folder gives the queue of what that folder holds, and a
/// folder placed before other entries puts its tracks before theirs.
pub proof fn lemma_queue_single_dir<P>(entries: Vec<Entry<P>>, rest: Seq<Entry<P>>)
    ensures
        queue_of(seq![Entry::Dir { entries }]) == queue_of(entries@),
        queue_of(seq![Entry::Dir { entries }] + rest) == queue_of(entries@) + queue_of(rest),
{
    let one = seq![Entry::Dir { entries }];
    lemma_queue_unfold(one);
    assert(one.subrange(1, 1) =~= Seq::<Entry<P>>::empty());
    assert(walk(Seq::<Entry<P>>::empty()) =~= Seq::<FileRef<P>>::empty());
    assert(queue_of(Seq::<Entry<P>>::empty()) =~= Seq::<P>::empty());
    assert(queue_of(entries@) + Seq::<P>::empty() =~= queue_of(entries@));
    lemma_queue_add(one, rest);
}

} // verus!
