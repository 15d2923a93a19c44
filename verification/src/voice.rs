//! Labels and presets for the sound files that can play with an alert.

use crate::text::{
    chars_of, concat, fold_ascii_case, replace_char, replaced, run_end, skip_run,
    spec_is_whitespace, str_eq, substring, to_ascii_lower,
};
use vstd::prelude::*;
use vstd::string::*;
use vstd::utf8::*;

verus! {

/// The upper-case form of a character, as `char::to_uppercase` of the
/// standard library gives it. It may take more than one character.
pub uninterp spec fn spec_to_uppercase(c: char) -> Seq<char>;

/// `char::to_uppercase` of the standard library, written out as a string.
#[verifier::external_body]
fn uppercase_of(c: char) -> (r: String)
    ensures
        r@ == spec_to_uppercase(c),
{
    c.to_uppercase().to_string()
}

/// The label of a sound file whose name holds no word.
pub open spec fn spec_default_label() -> Seq<char> {
    "Встроенный звук"@
}

/// A file stem with its underscores and hyphens turned into spaces.
pub open spec fn spec_spaced(stem: Seq<char>) -> Seq<char> {
    replaced(replaced(stem, '_', ' '), '-', ' ')
}

/// The words of a text from `from` on: its runs of characters that are not
/// white space.
pub open spec fn spec_words(s: Seq<char>, from: int) -> Seq<Seq<char>>
    decreases s.len() - from,
    via spec_words_terminates
{
    let start = run_end(s, from, true);
    if 0 <= from <= start < s.len() {
        let end = run_end(s, start, false);
        seq![s.subrange(start, end)] + spec_words(s, end)
    } else {
        Seq::empty()
    }
}

proof fn lemma_run_end_bounds(s: Seq<char>, from: int, spaces: bool)
    requires
        0 <= from <= s.len(),
    ensures
        from <= run_end(s, from, spaces) <= s.len(),
        run_end(s, from, spaces) < s.len() ==> spec_is_whitespace(s[run_end(s, from, spaces)])
            != spaces,
    decreases s.len() - from,
{
    if from < s.len() && spec_is_whitespace(s[from]) == spaces {
        lemma_run_end_bounds(s, from + 1, spaces);
    }
}

#[via_fn]
proof fn spec_words_terminates(s: Seq<char>, from: int) {
    if 0 <= from <= s.len() {
        lemma_run_end_bounds(s, from, true);
        let start = run_end(s, from, true);
        if start < s.len() {
            lemma_run_end_bounds(s, start, false);
            assert(run_end(s, start, false) > start);
        }
    }
}

/// A word with its first character in upper case.
pub open spec fn spec_capitalised(word: Seq<char>) -> Seq<char> {
    if word.len() == 0 {
        word
    } else {
        spec_to_uppercase(word[0]) + word.drop_first()
    }
}

/// Words, each capitalised, with one space between neighbours.
pub open spec fn spec_title(words: Seq<Seq<char>>) -> Seq<char>
    decreases words.len(),
{
    if words.len() == 0 {
        Seq::empty()
    } else if words.len() == 1 {
        spec_capitalised(words[0])
    } else {
        spec_title(words.drop_last()) + seq![' '] + spec_capitalised(words.last())
    }
}

/// The label shown for a sound file: the words of its stem, underscores
/// and hyphens counting as spaces, each capitalised; a fixed label where
/// there is no word.
pub open spec fn spec_format_voice_label(stem: Seq<char>) -> Seq<char> {
    let words = spec_words(spec_spaced(stem), 0);
    if words.len() == 0 {
        spec_default_label()
    } else {
        spec_title(words)
    }
}

fn capitalised(chars: &Vec<char>, start: usize, end: usize) -> (word: String)
    requires
        start < end <= chars.len(),
    ensures
        word@ == spec_capitalised(chars@.subrange(start as int, end as int)),
{
    let mut word = uppercase_of(chars[start]);
    let rest = substring(chars, start + 1, end);
    word.append(rest.as_str());
    assert(chars@.subrange(start as int, end as int).drop_first() == chars@.subrange(
        start + 1,
        end as int,
    ));
    word
}

/// Makes the label of a sound file from the stem of its name.
pub fn format_voice_label(stem: &str) -> (label: String)
    ensures
        label@ == spec_format_voice_label(stem@),
{
    let underscored = replace_char(stem, '_', ' ');
    let spaced = replace_char(underscored.as_str(), '-', ' ');
    let chars = chars_of(spaced.as_str());
    let mut label = String::new();
    let mut first = true;
    let mut from: usize = 0;
    let ghost mut done: Seq<Seq<char>> = Seq::empty();
    loop
        invariant
            chars@ == spec_spaced(stem@),
            from <= chars.len(),
            first == (done.len() == 0),
            spec_words(chars@, 0) == done + spec_words(chars@, from as int),
            label@ == spec_title(done),
        ensures
            spec_words(chars@, 0) == done,
        decreases chars.len() - from,
    {
        let start = skip_run(&chars, from, true);
        if start >= chars.len() {
            assert(spec_words(chars@, from as int) == Seq::<Seq<char>>::empty());
            assert(done + Seq::<Seq<char>>::empty() == done);
            break;
        }
        let end = skip_run(&chars, start, false);
        proof {
            lemma_run_end_bounds(chars@, start as int, false);
            lemma_run_end_bounds(chars@, from as int, true);
        }
        let word = capitalised(&chars, start, end);
        let ghost next = done.push(chars@.subrange(start as int, end as int));
        proof {
            assert(spec_words(chars@, from as int) == seq![
                chars@.subrange(start as int, end as int),
            ] + spec_words(chars@, end as int));
            assert(done + spec_words(chars@, from as int) == next + spec_words(
                chars@,
                end as int,
            ));
            assert(next.drop_last() == done);
        }
        if !first {
            label.push(' ');
            assert(label@ == spec_title(done) + seq![' ']);
        } else {
            assert(label@ == Seq::<char>::empty());
            assert(label@ + word@ == word@);
        }
        label.append(word.as_str());
        proof {
            done = next;
        }
        first = false;
        from = end;
    }
    if first {
        return "Встроенный звук".to_owned();
    }
    label
}

/// One sound file on offer.
#[derive(Debug)]
pub struct VoicePreset {
    pub id: String,
    pub label: String,
    pub file_name: String,
    pub path: String,
}

/// Whether a file extension, ASCII letters taken without regard to case,
/// names a sound format that can be played.
pub open spec fn spec_is_audio_extension(extension: Seq<char>) -> bool {
    let lower = fold_ascii_case(extension);
    lower == "mp3"@ || lower == "wav"@ || lower == "ogg"@ || lower == "m4a"@
}

/// Computes `spec_is_audio_extension`.
pub fn is_audio_extension(extension: &str) -> (r: bool)
    ensures
        r == spec_is_audio_extension(extension@),
{
    let chars = chars_of(extension);
    let mut lower = String::new();
    let mut i: usize = 0;
    while i < chars.len()
        invariant
            i <= chars.len(),
            chars@ == extension@,
            lower@ == fold_ascii_case(extension@).take(i as int),
        decreases chars.len() - i,
    {
        lower.push(to_ascii_lower(chars[i]));
        assert(fold_ascii_case(extension@).take(i + 1) == fold_ascii_case(extension@).take(
            i as int,
        ).push(fold_ascii_case(extension@)[i as int]));
        i += 1;
    }
    assert(fold_ascii_case(extension@).take(chars.len() as int) == fold_ascii_case(extension@));
    str_eq(lower.as_str(), "mp3") || str_eq(lower.as_str(), "wav") || str_eq(
        lower.as_str(),
        "ogg",
    ) || str_eq(lower.as_str(), "m4a")
}

/// The preset for a sound file with the given name, stem and extension;
/// none for a file that is no sound file.
pub fn voice_preset(file_name: &str, stem: &str, extension: &str) -> (preset: Option<VoicePreset>)
    ensures
        preset is Some == spec_is_audio_extension(extension@),
        preset matches Some(p) ==> {
            &&& p.id@ == "voice-"@ + file_name@
            &&& p.label@ == spec_format_voice_label(stem@)
            &&& p.file_name@ == file_name@
            &&& p.path@ == "voice/"@ + replaced(file_name@, '\\', '/')
        },
{
    if !is_audio_extension(extension) {
        return None;
    }
    let slashed = replace_char(file_name, '\\', '/');
    Some(
        VoicePreset {
            id: concat("voice-", file_name),
            label: format_voice_label(stem),
            file_name: file_name.to_owned(),
            path: concat("voice/", slashed.as_str()),
        },
    )
}

/// The mathematical content of a `VoicePreset`.
pub struct VoicePresetView {
    pub id: Seq<char>,
    pub label: Seq<char>,
    pub file_name: Seq<char>,
    pub path: Seq<char>,
}

impl View for VoicePreset {
    type V = VoicePresetView;

    open spec fn view(&self) -> VoicePresetView {
        VoicePresetView {
            id: self.id@,
            label: self.label@,
            file_name: self.file_name@,
            path: self.path@,
        }
    }
}

impl Clone for VoicePreset {
    fn clone(&self) -> (r: Self)
        ensures
            r@ == self@,
    {
        VoicePreset {
            id: self.id.clone(),
            label: self.label.clone(),
            file_name: self.file_name.clone(),
            path: self.path.clone(),
        }
    }
}

/// A file as it is found in the directory of sounds: its name, and the stem
/// and the extension of that name.
#[derive(Debug)]
pub struct VoiceFile {
    pub file_name: String,
    pub stem: String,
    pub extension: String,
}

/// The preset that a file gives, if it is a sound file.
pub open spec fn spec_voice_preset(file: VoiceFile) -> Option<VoicePresetView> {
    if spec_is_audio_extension(file.extension@) {
        Some(
            VoicePresetView {
                id: "voice-"@ + file.file_name@,
                label: spec_format_voice_label(file.stem@),
                file_name: file.file_name@,
                path: "voice/"@ + replaced(file.file_name@, '\\', '/'),
            },
        )
    } else {
        None
    }
}

/// The presets that a list of files gives, in the order of the files.
pub open spec fn spec_presets(files: Seq<VoiceFile>) -> Seq<VoicePresetView>
    decreases files.len(),
{
    if files.len() == 0 {
        Seq::empty()
    } else {
        match spec_voice_preset(files.last()) {
            Some(preset) => spec_presets(files.drop_last()).push(preset),
            None => spec_presets(files.drop_last()),
        }
    }
}

/// The lower-case form of a text, as `str::to_lowercase` of the standard
/// library gives it.
pub uninterp spec fn spec_to_lowercase(text: Seq<char>) -> Seq<char>;

/// `str::to_lowercase` of the standard library.
#[verifier::external_body]
fn lowercase_of(text: &str) -> (r: String)
    ensures
        r@ == spec_to_lowercase(text@),
{
    text.to_lowercase()
}

/// Whether `a` comes no later than `b` where byte sequences are ordered as
/// words are in a dictionary.
pub open spec fn bytes_le(a: Seq<u8>, b: Seq<u8>) -> bool
    decreases a.len(),
{
    if a.len() == 0 {
        true
    } else if b.len() == 0 {
        false
    } else if a[0] != b[0] {
        a[0] < b[0]
    } else {
        bytes_le(a.drop_first(), b.drop_first())
    }
}

fn is_bytes_le(a: &[u8], b: &[u8]) -> (r: bool)
    ensures
        r == bytes_le(a@, b@),
{
    let mut i: usize = 0;
    assert(a@.skip(0) == a@ && b@.skip(0) == b@);
    loop
        invariant
            i <= a.len(),
            i <= b.len(),
            bytes_le(a@, b@) == bytes_le(a@.skip(i as int), b@.skip(i as int)),
        decreases a.len() - i,
    {
        if i >= a.len() {
            return true;
        }
        if i >= b.len() {
            return false;
        }
        if a[i] != b[i] {
            return a[i] < b[i];
        }
        assert(a@.skip(i as int).drop_first() == a@.skip(i + 1));
        assert(b@.skip(i as int).drop_first() == b@.skip(i + 1));
        i += 1;
    }
}

/// The bytes by which a label is ordered: those of its lower-case form.
pub open spec fn spec_sort_key(label: Seq<char>) -> Seq<u8> {
    encode_utf8(spec_to_lowercase(label))
}

/// Whether a preset is listed no later than another: by label, without
/// regard to case.
pub open spec fn listed_not_after(a: VoicePresetView, b: VoicePresetView) -> bool {
    bytes_le(spec_sort_key(a.label), spec_sort_key(b.label))
}

/// A list in order with one more preset put in: behind every one that is
/// listed no later.
pub open spec fn spec_insert_preset(sorted: Seq<VoicePresetView>, p: VoicePresetView) -> Seq<
    VoicePresetView,
>
    decreases sorted.len(),
{
    if sorted.len() == 0 {
        seq![p]
    } else if listed_not_after(sorted.last(), p) {
        sorted.push(p)
    } else {
        spec_insert_preset(sorted.drop_last(), p).push(sorted.last())
    }
}

/// Presets in the order in which they are listed: by label without regard
/// to case, those of equal label in the order in which they stood.
pub open spec fn spec_sort_presets(list: Seq<VoicePresetView>) -> Seq<VoicePresetView>
    decreases list.len(),
{
    if list.len() == 0 {
        list
    } else {
        spec_insert_preset(spec_sort_presets(list.drop_last()), list.last())
    }
}

/// The views of a list of presets.
pub open spec fn preset_views(list: Seq<VoicePreset>) -> Seq<VoicePresetView> {
    list.map_values(|p: VoicePreset| p@)
}

proof fn lemma_insert_preset_at(sorted: Seq<VoicePresetView>, p: VoicePresetView, at: int)
    requires
        0 <= at <= sorted.len(),
        at > 0 ==> listed_not_after(sorted[at - 1], p),
        forall|k: int| at <= k < sorted.len() ==> !listed_not_after(sorted[k], p),
    ensures
        spec_insert_preset(sorted, p) == sorted.insert(at, p),
    decreases sorted.len() - at,
{
    if sorted.len() == 0 {
        assert(sorted.insert(at, p) == seq![p]);
    } else if at == sorted.len() {
        assert(sorted.insert(at, p) == sorted.push(p));
    } else {
        lemma_insert_preset_at(sorted.drop_last(), p, at);
        assert(sorted.drop_last().insert(at, p).push(sorted.last()) == sorted.insert(at, p));
    }
}

/// Of two byte sequences one comes no later than the other.
pub proof fn lemma_bytes_le_total(a: Seq<u8>, b: Seq<u8>)
    ensures
        bytes_le(a, b) || bytes_le(b, a),
    decreases a.len(),
{
    if a.len() > 0 && b.len() > 0 && a[0] == b[0] {
        lemma_bytes_le_total(a.drop_first(), b.drop_first());
    }
}

/// What comes no later than something that comes no later than a third
/// comes no later than the third.
pub proof fn lemma_bytes_le_transitive(a: Seq<u8>, b: Seq<u8>, c: Seq<u8>)
    requires
        bytes_le(a, b),
        bytes_le(b, c),
    ensures
        bytes_le(a, c),
    decreases a.len(),
{
    if a.len() > 0 && a[0] == b[0] && b[0] == c[0] {
        lemma_bytes_le_transitive(a.drop_first(), b.drop_first(), c.drop_first());
    }
}

/// Whether a list of presets is in the order in which presets are listed.
pub open spec fn presets_in_order(list: Seq<VoicePresetView>) -> bool {
    forall|i: int, j: int|
        0 <= i < j < list.len() ==> listed_not_after(#[trigger] list[i], #[trigger] list[j])
}

/// Putting a preset into a list that is in order gives a list that is in
/// order and holds what the list held, and the preset.
pub proof fn lemma_insert_preset_keeps_order(sorted: Seq<VoicePresetView>, p: VoicePresetView)
    requires
        presets_in_order(sorted),
    ensures
        presets_in_order(spec_insert_preset(sorted, p)),
        spec_insert_preset(sorted, p).to_multiset() == sorted.to_multiset().insert(p),
        spec_insert_preset(sorted, p).len() == sorted.len() + 1,
    decreases sorted.len(),
{
    broadcast use vstd::seq_lib::group_to_multiset_ensures;

    let after = spec_insert_preset(sorted, p);
    if sorted.len() == 0 {
        assert(seq![p] == Seq::<VoicePresetView>::empty().push(p));
        assert(sorted == Seq::<VoicePresetView>::empty());
    } else if listed_not_after(sorted.last(), p) {
        assert forall|i: int, j: int| 0 <= i < j < after.len() implies listed_not_after(
            #[trigger] after[i],
            #[trigger] after[j],
        ) by {
            if j == sorted.len() && i < sorted.len() - 1 {
                assert(listed_not_after(sorted[i], sorted.last()));
                lemma_bytes_le_transitive(
                    spec_sort_key(sorted[i].label),
                    spec_sort_key(sorted.last().label),
                    spec_sort_key(p.label),
                );
            }
        }
    } else {
        let front = sorted.drop_last();
        lemma_insert_preset_keeps_order(front, p);
        let mid = spec_insert_preset(front, p);
        assert(sorted == front.push(sorted.last()));
        assert forall|i: int, j: int| 0 <= i < j < after.len() implies listed_not_after(
            #[trigger] after[i],
            #[trigger] after[j],
        ) by {
            if j == mid.len() {
                assert(mid.to_multiset().count(mid[i]) > 0);
                if mid[i] != p {
                    assert(front.to_multiset().count(mid[i]) > 0);
                    assert(front.contains(mid[i]));
                    let k = choose|k: int| 0 <= k < front.len() && front[k] == mid[i];
                    assert(listed_not_after(sorted[k], sorted.last()));
                } else {
                    lemma_bytes_le_total(
                        spec_sort_key(sorted.last().label),
                        spec_sort_key(p.label),
                    );
                }
            } else {
                assert(after[i] == mid[i] && after[j] == mid[j]);
            }
        }
    }
}

/// The order in which presets are listed is an order, and it keeps every
/// preset.
pub proof fn lemma_sort_presets(list: Seq<VoicePresetView>)
    ensures
        presets_in_order(spec_sort_presets(list)),
        spec_sort_presets(list).to_multiset() == list.to_multiset(),
        spec_sort_presets(list).len() == list.len(),
    decreases list.len(),
{
    broadcast use vstd::seq_lib::group_to_multiset_ensures;

    if list.len() > 0 {
        lemma_sort_presets(list.drop_last());
        lemma_insert_preset_keeps_order(spec_sort_presets(list.drop_last()), list.last());
        assert(list == list.drop_last().push(list.last()));
    }
}

/// Puts presets in the order in which they are listed.
pub fn sort_presets(list: Vec<VoicePreset>) -> (sorted: Vec<VoicePreset>)
    ensures
        preset_views(sorted@) == spec_sort_presets(preset_views(list@)),
{
    let mut sorted: Vec<VoicePreset> = Vec::new();
    let mut keys: Vec<String> = Vec::new();
    let mut i: usize = 0;
    assert(preset_views(list@).take(0) == Seq::<VoicePresetView>::empty());
    while i < list.len()
        invariant
            i <= list.len(),
            sorted.len() == i,
            keys.len() == i,
            forall|k: int| 0 <= k < i ==> (#[trigger] keys[k])@ == spec_to_lowercase(sorted[k].label@),
            preset_views(sorted@) == spec_sort_presets(preset_views(list@).take(i as int)),
        decreases list.len() - i,
    {
        let p = list[i].clone();
        let key = lowercase_of(p.label.as_str());
        let mut at: usize = sorted.len();
        while at > 0 && !is_bytes_le(keys[at - 1].as_str().as_bytes(), key.as_str().as_bytes())
            invariant
                at <= sorted.len(),
                keys.len() == sorted.len(),
                key@ == spec_to_lowercase(p@.label),
                forall|k: int|
                    0 <= k < sorted.len() ==> (#[trigger] keys[k])@ == spec_to_lowercase(
                        sorted[k].label@,
                    ),
                forall|k: int|
                    at <= k < sorted.len() ==> !listed_not_after(preset_views(sorted@)[k], p@),
            decreases at,
        {
            at -= 1;
        }
        proof {
            lemma_insert_preset_at(preset_views(sorted@), p@, at as int);
            assert(preset_views(list@).take(i + 1).drop_last() == preset_views(list@).take(
                i as int,
            ));
            assert(preset_views(list@).take(i + 1).last() == p@);
        }
        let ghost before = preset_views(sorted@);
        sorted.insert(at, p);
        keys.insert(at, key);
        assert(preset_views(sorted@) == before.insert(at as int, p@));
        i += 1;
    }
    assert(preset_views(list@).take(list.len() as int) == preset_views(list@));
    sorted
}

/// The presets for the files of the directory of sounds: one for each sound
/// file, in the order in which they are listed.
pub fn list_voice_tracks(files: &Vec<VoiceFile>) -> (presets: Vec<VoicePreset>)
    ensures
        preset_views(presets@) == spec_sort_presets(spec_presets(files@)),
{
    let mut found: Vec<VoicePreset> = Vec::new();
    let mut i: usize = 0;
    assert(files@.take(0) == Seq::<VoiceFile>::empty());
    while i < files.len()
        invariant
            i <= files.len(),
            preset_views(found@) == spec_presets(files@.take(i as int)),
        decreases files.len() - i,
    {
        let file = &files[i];
        assert(files@.take(i + 1).drop_last() == files@.take(i as int));
        assert(files@.take(i + 1).last() == files@[i as int]);
        let ghost before = preset_views(found@);
        match voice_preset(file.file_name.as_str(), file.stem.as_str(), file.extension.as_str()) {
            Some(preset) => {
                found.push(preset);
                assert(preset_views(found@) == before.push(preset@));
            },
            None => {},
        }
        i += 1;
    }
    assert(files@.take(files.len() as int) == files@);
    sort_presets(found)
}

} // verus!
