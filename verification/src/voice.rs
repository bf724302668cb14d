//! Voice styles: the table from voice names to style files, and how it is
//! built from the entries of the `voice_styles` directory.
use vstd::prelude::*;
use crate::file_name::{extension_of, file_stem, split_file_name, stem_of};

verus! {

/// A voice style, known by the path of its JSON file; the style itself is
/// loaded from that file when the voice is first used.
#[derive(Debug)]
pub struct Voice {
    file_path: String,
}

impl Voice {
    pub fn new(file_path: String) -> (v: Voice)
        ensures
            v.path() == file_path@,
    {
        Voice { file_path }
    }

    /// The path of the style file.
    pub closed spec fn path(&self) -> Seq<char> {
        self.file_path@
    }

    pub fn file_path(&self) -> (p: &String)
        ensures
            p@ == self.path(),
    {
        &self.file_path
    }
}

struct VoiceEntry {
    name: String,
    voice: Voice,
}

/// A table of voices, each under a distinct name, kept in the order in which
/// the names were first inserted.
pub struct Voices {
    entries: Vec<VoiceEntry>,
}

impl View for Voices {
    type V = Map<Seq<char>, Seq<char>>;

    /// Each name mapped to the path of its style file.
    closed spec fn view(&self) -> Map<Seq<char>, Seq<char>> {
        Map::new(
            |k: Seq<char>| exists|i: int| 0 <= i < self.entries@.len() && self.entries@[i].name@ == k,
            |k: Seq<char>|
                {
                    let i = choose|i: int|
                        0 <= i < self.entries@.len() && self.entries@[i].name@ == k;
                    self.entries@[i].voice.path()
                },
        )
    }
}

impl Voices {
    /// No name occurs twice.
    pub closed spec fn wf(&self) -> bool {
        forall|i: int, j: int|
            0 <= i < j < self.entries@.len() ==> self.entries@[i].name@ != self.entries@[j].name@
    }

    /// The names in the order in which they were first inserted.
    pub closed spec fn names(&self) -> Seq<Seq<char>> {
        self.entries@.map_values(|e: VoiceEntry| e.name@)
    }

    proof fn lemma_view_at(&self, i: int)
        requires
            self.wf(),
            0 <= i < self.entries@.len(),
        ensures
            self@.contains_key(self.entries@[i].name@),
            self@[self.entries@[i].name@] == self.entries@[i].voice.path(),
    {
        let k = self.entries@[i].name@;
        let j = choose|j: int| 0 <= j < self.entries@.len() && self.entries@[j].name@ == k;
        assert(0 <= j < self.entries@.len() && self.entries@[j].name@ == k);
        if j != i {
            if j < i {
                assert(self.entries@[j].name@ != self.entries@[i].name@);
            } else {
                assert(self.entries@[i].name@ != self.entries@[j].name@);
            }
        }
    }

    /// The names of the table are exactly its keys, each once.
    pub proof fn lemma_names(&self)
        requires
            self.wf(),
        ensures
            self.names().no_duplicates(),
            self.names().to_set() == self@.dom(),
            self.names().len() == self@.dom().len(),
    {
        let names = self.names();
        assert forall|i: int, j: int| 0 <= i < names.len() && 0 <= j < names.len() && i != j
            implies names[i] != names[j] by {
            if i < j {
                assert(self.entries@[i].name@ != self.entries@[j].name@);
            } else {
                assert(self.entries@[j].name@ != self.entries@[i].name@);
            }
        }
        assert forall|k: Seq<char>| names.to_set().contains(k) <==> self@.dom().contains(k) by {
            if names.to_set().contains(k) {
                let i = choose|i: int| 0 <= i < names.len() && names[i] == k;
                assert(self.entries@[i].name@ == k);
            }
            if self@.dom().contains(k) {
                let i = choose|i: int| 0 <= i < self.entries@.len() && self.entries@[i].name@ == k;
                assert(names[i] == k);
            }
        }
        assert(names.to_set() =~= self@.dom());
        names.unique_seq_to_set();
    }

    /// An empty table.
    pub fn new() -> (v: Voices)
        ensures
            v.wf(),
            v@ == Map::<Seq<char>, Seq<char>>::empty(),
            v.names() == Seq::<Seq<char>>::empty(),
    {
        let v = Voices { entries: Vec::new() };
        assert(v@ =~= Map::<Seq<char>, Seq<char>>::empty());
        assert(v.names() =~= Seq::<Seq<char>>::empty());
        v
    }

    fn find(&self, name: &String) -> (r: Option<usize>)
        requires
            self.wf(),
        ensures
            match r {
                Some(i) => i < self.entries@.len() && self.entries@[i as int].name@ == name@,
                None => !self@.contains_key(name@),
            },
    {
        let mut i: usize = 0;
        while i < self.entries.len()
            invariant
                i <= self.entries@.len(),
                forall|j: int| 0 <= j < i ==> self.entries@[j].name@ != name@,
            decreases self.entries@.len() - i,
        {
            if self.entries[i].name == *name {
                return Some(i);
            }
            i = i + 1;
        }
        None
    }

    /// Looks a voice up by name.
    pub fn get(&self, name: &String) -> (r: Option<&Voice>)
        requires
            self.wf(),
        ensures
            match r {
                Some(v) => self@.contains_key(name@) && self@[name@] == v.path(),
                None => !self@.contains_key(name@),
            },
    {
        match self.find(name) {
            Some(i) => {
                proof {
                    self.lemma_view_at(i as int);
                }
                Some(&self.entries[i].voice)
            },
            None => None,
        }
    }

    /// Puts `voice` under `name`, replacing the voice that was there.
    pub fn insert(&mut self, name: String, voice: Voice)
        requires
            old(self).wf(),
        ensures
            final(self).wf(),
            final(self)@ == old(self)@.insert(name@, voice.path()),
            old(self)@.contains_key(name@) ==> final(self).names() == old(self).names(),
            !old(self)@.contains_key(name@) ==> final(self).names() == old(self).names().push(
                name@,
            ),
    {
        let ghost k = name@;
        let ghost p = voice.path();
        match self.find(&name) {
            Some(i) => {
                let ghost before = self.entries@;
                self.entries.set(i, VoiceEntry { name, voice });
                assert forall|a: int, b: int| 0 <= a < b < self.entries@.len() implies self.entries@[a].name@
                    != self.entries@[b].name@ by {
                    assert(before[a].name@ != before[b].name@);
                }
                assert forall|key: Seq<char>| #![auto] self@.contains_key(key) <==> old(self)@.insert(k, p).contains_key(key) by {
                    if self@.contains_key(key) {
                        let j = choose|j: int| 0 <= j < self.entries@.len() && self.entries@[j].name@ == key;
                        assert(before[j].name@ == key);
                    }
                    if key == k {
                        assert(self.entries@[i as int].name@ == key);
                    }
                    if old(self)@.insert(k, p).contains_key(key) && key != k {
                        let j = choose|j: int| 0 <= j < before.len() && before[j].name@ == key;
                        assert(self.entries@[j].name@ == key);
                    }
                }
                assert forall|key: Seq<char>| #[trigger] self@.contains_key(key) implies self@[key]
                    == old(self)@.insert(k, p)[key] by {
                    let j = choose|j: int| 0 <= j < self.entries@.len() && self.entries@[j].name@ == key;
                    self.lemma_view_at(j);
                    if key != k {
                        old(self).lemma_view_at(j);
                    }
                }
                assert(self@ =~= old(self)@.insert(k, p));
                assert(self.names() =~= old(self).names());
            },
            None => {
                let ghost before = self.entries@;
                self.entries.push(VoiceEntry { name, voice });
                assert forall|key: Seq<char>| #![auto] self@.contains_key(key) <==> old(self)@.insert(k, p).contains_key(key) by {
                    if self@.contains_key(key) && key != k {
                        let j = choose|j: int| 0 <= j < self.entries@.len() && self.entries@[j].name@ == key;
                        assert(before[j].name@ == key);
                    }
                    if old(self)@.insert(k, p).contains_key(key) && key != k {
                        let j = choose|j: int| 0 <= j < before.len() && before[j].name@ == key;
                        assert(self.entries@[j].name@ == key);
                    }
                    if key == k {
                        assert(self.entries@[before.len() as int].name@ == key);
                    }
                }
                assert forall|key: Seq<char>| #[trigger] self@.contains_key(key) implies self@[key]
                    == old(self)@.insert(k, p)[key] by {
                    let j = choose|j: int| 0 <= j < self.entries@.len() && self.entries@[j].name@ == key;
                    self.lemma_view_at(j);
                    if key != k {
                        old(self).lemma_view_at(j);
                    }
                }
                assert(self@ =~= old(self)@.insert(k, p));
                assert(self.names() =~= old(self).names().push(k));
            },
        }
    }

    /// The number of voices.
    pub fn len(&self) -> (n: usize)
        requires
            self.wf(),
        ensures
            n == self@.dom().len(),
    {
        proof {
            self.lemma_names();
        }
        self.entries.len()
    }

    /// The names of all voices, in the order of [`Voices::names`].
    pub fn name_list(&self) -> (names: Vec<String>)
        requires
            self.wf(),
        ensures
            names@.map_values(|s: String| s@) == self.names(),
    {
        let mut names: Vec<String> = Vec::new();
        let mut i: usize = 0;
        while i < self.entries.len()
            invariant
                i <= self.entries@.len(),
                names@.len() == i,
                names@.map_values(|s: String| s@) == self.names().take(i as int),
            decreases self.entries@.len() - i,
        {
            let n = self.entries[i].name.clone();
            assert(n@ == self.names()[i as int]);
            let ghost prev = names@;
            names.push(n);
            i = i + 1;
            assert forall|j: int| 0 <= j < i implies names@.map_values(|s: String| s@)[j]
                == self.names().take(i as int)[j] by {
                if j < i - 1 {
                    assert(prev.map_values(|s: String| s@)[j] == self.names().take(i - 1)[j]);
                }
            }
            assert(names@.map_values(|s: String| s@) =~= self.names().take(i as int));
        }
        assert(self.names().take(i as int) =~= self.names());
        names
    }
}

/// The extension of voice style files.
pub open spec fn json_ext() -> Seq<char> {
    seq!['j', 's', 'o', 'n']
}

/// The directory of voice style files under the assets directory.
pub open spec fn voice_styles_dir_of(assets: Seq<char>) -> Seq<char> {
    assets + seq!['/', 'v', 'o', 'i', 'c', 'e', '_', 's', 't', 'y', 'l', 'e', 's']
}

/// The path of the directory entry `file` of the voice styles directory.
pub open spec fn voice_path(assets: Seq<char>, file: Seq<char>) -> Seq<char> {
    voice_styles_dir_of(assets) + seq!['/'] + file
}

/// Whether a directory entry is a voice style file: its extension is "json".
pub open spec fn is_voice_file(file: Seq<char>) -> bool {
    extension_of(file) == Some(json_ext())
}

/// The voice table built from the entries `files` of the voice styles
/// directory, in order: each JSON file is put under its stem, a later one
/// replacing an earlier one of the same stem.
pub open spec fn voices_from_files(assets: Seq<char>, files: Seq<Seq<char>>) -> Map<
    Seq<char>,
    Seq<char>,
>
    decreases files.len(),
{
    if files.len() == 0 {
        Map::empty()
    } else {
        let prev = voices_from_files(assets, files.drop_last());
        let f = files.last();
        if is_voice_file(f) {
            prev.insert(stem_of(f), voice_path(assets, f))
        } else {
            prev
        }
    }
}

/// The path of the voice styles directory under `assets_path`.
pub fn voice_styles_dir(assets_path: &str) -> (dir: String)
    ensures
        dir@ == voice_styles_dir_of(assets_path@),
{
    let mut dir = assets_path.to_owned();
    dir.append("/voice_styles");
    proof {
        reveal_strlit("/voice_styles");
    }
    assert(dir@ =~= voice_styles_dir_of(assets_path@));
    dir
}

/// The path of the entry `file` of the voice styles directory.
pub fn voice_file_path(assets_path: &str, file: &str) -> (path: String)
    ensures
        path@ == voice_path(assets_path@, file@),
{
    let mut path = voice_styles_dir(assets_path);
    path.append("/");
    path.append(file);
    proof {
        reveal_strlit("/");
    }
    assert(path@ =~= voice_path(assets_path@, file@));
    path
}

/// Builds the voice table from the names of the entries of the voice styles
/// directory: every file with the extension "json" becomes a voice named by
/// its stem, whose style is loaded from that file when first used.
pub fn lazy_init_voices(assets_path: &str, file_names: &Vec<String>) -> (voices: Voices)
    ensures
        voices.wf(),
        voices@ == voices_from_files(assets_path@, file_names@.map_values(|s: String| s@)),
{
    let ghost files = file_names@.map_values(|s: String| s@);
    let mut voices = Voices::new();
    let mut i: usize = 0;
    while i < file_names.len()
        invariant
            i <= file_names@.len(),
            files == file_names@.map_values(|s: String| s@),
            voices.wf(),
            voices@ == voices_from_files(assets_path@, files.take(i as int)),
        decreases file_names@.len() - i,
    {
        let name = &file_names[i];
        let (stem, ext) = split_file_name(name.as_str());
        let is_json = match ext {
            Some(e) => {
                let json = "json".to_owned();
                proof {
                    reveal_strlit("json");
                }
                assert(json@ =~= json_ext());
                e == json
            },
            None => false,
        };
        assert(files.take(i + 1).drop_last() =~= files.take(i as int));
        assert(files.take(i + 1).last() == name@);
        if is_json {
            let path = voice_file_path(assets_path, name.as_str());
            voices.insert(stem, Voice::new(path));
        }
        i = i + 1;
    }
    assert(files.take(i as int) =~= files);
    voices
}

/// A name is a voice exactly when some JSON entry has it as its stem; its
/// style file is the last such entry.
pub proof fn lemma_voices_from_files(assets: Seq<char>, files: Seq<Seq<char>>, name: Seq<char>)
    ensures
        voices_from_files(assets, files).contains_key(name) <==> exists|i: int|
            0 <= i < files.len() && is_voice_file(#[trigger] files[i]) && stem_of(files[i]) == name,
        forall|i: int|
            0 <= i < files.len() && is_voice_file(#[trigger] files[i]) && stem_of(files[i]) == name
                && (forall|j: int|
                i < j < files.len() && is_voice_file(#[trigger] files[j]) ==> stem_of(files[j])
                    != name) ==> voices_from_files(assets, files)[name] == voice_path(
                assets,
                files[i],
            ),
    decreases files.len(),
{
    if files.len() > 0 {
        let prev = files.drop_last();
        lemma_voices_from_files(assets, prev, name);
        let last = files.len() - 1;
        if voices_from_files(assets, files).contains_key(name) {
            if !(is_voice_file(files[last]) && stem_of(files[last]) == name) {
                let i = choose|i: int|
                    0 <= i < prev.len() && is_voice_file(#[trigger] prev[i]) && stem_of(prev[i])
                        == name;
                assert(files[i] == prev[i]);
            }
        }
        if exists|i: int|
            0 <= i < files.len() && is_voice_file(#[trigger] files[i]) && stem_of(files[i]) == name {
            let i = choose|i: int|
                0 <= i < files.len() && is_voice_file(#[trigger] files[i]) && stem_of(files[i])
                    == name;
            if i < last {
                assert(prev[i] == files[i]);
            }
        }
        assert forall|i: int|
            0 <= i < files.len() && is_voice_file(#[trigger] files[i]) && stem_of(files[i]) == name
                && (forall|j: int|
                i < j < files.len() && is_voice_file(#[trigger] files[j]) ==> stem_of(files[j])
                    != name) implies voices_from_files(assets, files)[name] == voice_path(
            assets,
            files[i],
        ) by {
            if i < last {
                assert(is_voice_file(files[last]) ==> stem_of(files[last]) != name);
                assert(prev[i] == files[i]);
                assert forall|j: int|
                    i < j < prev.len() && is_voice_file(#[trigger] prev[j]) implies stem_of(prev[j])
                    != name by {
                    assert(prev[j] == files[j]);
                }
            }
        }
    }
}

/// Every voice of the table is listed among the stems of the directory
/// entries (see [`list_voice_names`]).
pub proof fn lemma_voice_names_are_stems(assets: Seq<char>, files: Seq<Seq<char>>, name: Seq<char>)
    requires
        voices_from_files(assets, files).contains_key(name),
    ensures
        files.map_values(|f: Seq<char>| stem_of(f)).contains(name),
{
    lemma_voices_from_files(assets, files, name);
    let i = choose|i: int|
        0 <= i < files.len() && is_voice_file(#[trigger] files[i]) && stem_of(files[i]) == name;
    assert(files.map_values(|f: Seq<char>| stem_of(f))[i] == name);
}

/// The stems of all entries of the voice styles directory, in order.
pub fn list_voice_names(file_names: &Vec<String>) -> (names: Vec<String>)
    ensures
        names@.map_values(|s: String| s@) == file_names@.map_values(|s: String| stem_of(s@)),
{
    let mut names: Vec<String> = Vec::new();
    let mut i: usize = 0;
    while i < file_names.len()
        invariant
            i <= file_names@.len(),
            names@.len() == i,
            names@.map_values(|s: String| s@) == file_names@.map_values(|s: String| stem_of(s@)).take(
                i as int,
            ),
        decreases file_names@.len() - i,
    {
        let stem = file_stem(file_names[i].as_str());
        let ghost prev = names@;
        names.push(stem);
        i = i + 1;
        let ghost out = names@.map_values(|s: String| s@);
        let ghost want = file_names@.map_values(|s: String| stem_of(s@));
        assert forall|j: int| 0 <= j < i implies #[trigger] out[j] == want[j] by {
            if j < i - 1 {
                assert(prev.map_values(|s: String| s@)[j] == want.take(i - 1)[j]);
            }
        }
        assert(names@.map_values(|s: String| s@) =~= file_names@.map_values(
            |s: String| stem_of(s@),
        ).take(i as int));
    }
    assert(file_names@.map_values(|s: String| stem_of(s@)).take(i as int) =~= file_names@.map_values(
        |s: String| stem_of(s@),
    ));
    names
}

} // verus!
