use crate::handle_set::{
    members, set_contains, set_insert, set_items, set_len, set_new, set_remove, Handle,
};
use crate::loading::{handle_ids, handles_of, Barrier, LoadState};
use crate::random::{random_below, thread_rng};
use crate::text::{
    from_utf8, lines_of, split_lines, texts, to_uppercase, trim, trimmed, uppercase,
};
use vstd::prelude::*;
use vstd::utf8::{decode_utf8, valid_utf8};

verus! {

///////////
// Topic //
///////////

/// Why a topic file could not be loaded.
#[derive(Clone, Copy, PartialEq, Eq, Structural, Debug)]
pub enum TopicLoadError {
    ConversionError,
    LengthError,
}

/// What the message of an error says.
pub open spec fn message_of(error: TopicLoadError) -> Seq<char> {
    match error {
        TopicLoadError::ConversionError => "Topic file must be UTF-8 encoded text"@,
        TopicLoadError::LengthError => "Topic file must be at least 2 lines"@,
    }
}

impl TopicLoadError {
    /// The error in words.
    pub fn message(&self) -> (text: String)
        ensures
            text@ == message_of(*self),
    {
        match self {
            TopicLoadError::ConversionError => "Topic file must be UTF-8 encoded text".to_owned(),
            TopicLoadError::LengthError => "Topic file must be at least 2 lines".to_owned(),
        }
    }
}

/// A deck: a name and its phrases.
pub struct Topic {
    pub name: String,
    pub phrases: Vec<String>,
}

/// What a deck holds, as plain text.
pub struct TopicText {
    pub name: Seq<char>,
    pub phrases: Seq<Seq<char>>,
}

impl View for Topic {
    type V = TopicText;

    open spec fn view(&self) -> TopicText {
        TopicText { name: self.name@, phrases: texts(self.phrases@) }
    }
}

/// The phrase that a line of a topic file stands for: the line without the
/// white space around it, in upper case.
pub open spec fn phrase_of(line: Seq<char>) -> Seq<char> {
    uppercase(trimmed(line))
}

/// What a topic file holds. The bytes must be UTF-8 text of at least two
/// lines: the first, trimmed, is the name, and every further line is one
/// phrase.
pub open spec fn topic_of(bytes: Seq<u8>) -> Result<TopicText, TopicLoadError> {
    if !valid_utf8(bytes) {
        Err(TopicLoadError::ConversionError)
    } else {
        let lines = lines_of(decode_utf8(bytes));
        if lines.len() < 2 {
            Err(TopicLoadError::LengthError)
        } else {
            Ok(
                TopicText {
                    name: trimmed(lines[0]),
                    phrases: Seq::new((lines.len() - 1) as nat, |i: int| phrase_of(lines[i + 1])),
                },
            )
        }
    }
}

impl Topic {
    /// Reads a topic from the bytes of its file.
    pub fn load(bytes: Vec<u8>) -> (result: Result<Topic, TopicLoadError>)
        ensures
            match result {
                Ok(topic) => topic_of(bytes@) == Ok::<TopicText, TopicLoadError>(topic@),
                Err(error) => topic_of(bytes@) == Err::<TopicText, TopicLoadError>(error),
            },
            result matches Ok(topic) ==> topic@.phrases.len() >= 1,
    {
        let ghost given = bytes@;
        let text = match from_utf8(bytes) {
            Some(text) => text,
            None => {
                return Err(TopicLoadError::ConversionError);
            },
        };
        let lines = split_lines(text.as_str());
        if lines.len() < 2 {
            return Err(TopicLoadError::LengthError);
        }
        let name = trim(lines[0].as_str());
        let mut phrases: Vec<String> = Vec::new();
        let mut i: usize = 1;
        while i < lines.len()
            invariant
                1 <= i <= lines.len(),
                texts(lines@) == lines_of(decode_utf8(given)),
                phrases@.len() == i - 1,
                forall|k: int| 0 <= k < i - 1 ==> (#[trigger] phrases@[k])@ == phrase_of(lines@[k + 1]@),
            decreases lines.len() - i,
        {
            let line = trim(lines[i].as_str());
            phrases.push(to_uppercase(line.as_str()));
            i += 1;
        }
        let topic = Topic { name, phrases };
        proof {
            let all = lines_of(decode_utf8(given));
            assert(all.len() == lines@.len());
            assert forall|k: int| 0 <= k < all.len() implies all[k] == (#[trigger] lines@[k])@ by {
                assert(texts(lines@)[k] == lines@[k]@);
            }
            assert(topic@.phrases =~= Seq::new(
                (all.len() - 1) as nat,
                |i: int| phrase_of(all[i + 1]),
            ));
        }
        Ok(topic)
    }

    /// The phrase at a place of the deck.
    pub fn phrase(&self, index: usize) -> (phrase: &str)
        requires
            index < self.phrases@.len(),
        ensures
            phrase@ == self@.phrases[index as int],
    {
        self.phrases[index].as_str()
    }

    /// One of the deck's phrases, each place of the deck being as likely as
    /// any other. The deck must hold a phrase, as every loaded deck does.
    pub fn pick(&self) -> (phrase: &str)
        requires
            self@.phrases.len() > 0,
        ensures
            exists|index: int|
                0 <= index < self@.phrases.len() && phrase@ == #[trigger] self@.phrases[index],
    {
        let mut rng = thread_rng();
        let pick = random_below(&mut rng, self.phrases.len());
        self.phrase(pick)
    }
}

////////////
// Topics //
////////////

/// The registry of decks: the barrier over their loads, the handles of all
/// decks, and those among them that are enabled.
pub struct Topics {
    loading: LoadState,
    all: bevy::platform::collections::HashSet<u64>,
    enabled: bevy::platform::collections::HashSet<u64>,
}

/// What a registry of decks is, with handles taken by their ids.
pub struct Registry {
    pub loading: Barrier,
    pub all: Set<u64>,
    pub enabled: Set<u64>,
}

/// A set of ids with the membership of one id flipped.
pub open spec fn toggled(enabled: Set<u64>, id: u64) -> Set<u64> {
    if enabled.contains(id) {
        enabled.remove(id)
    } else {
        enabled.insert(id)
    }
}

impl Registry {
    /// A registry without decks.
    pub open spec fn empty() -> Registry {
        Registry { loading: Barrier::fresh(), all: Set::empty(), enabled: Set::empty() }
    }

    /// The registry after a deck is added: its load is awaited, and it is
    /// enabled.
    pub open spec fn register(self, id: u64) -> Registry {
        Registry {
            loading: self.loading.register(id),
            all: self.all.insert(id),
            enabled: self.enabled.insert(id),
        }
    }

    /// The registry after one poll of its barrier.
    pub open spec fn poll(self, loaded: Set<u64>) -> Registry {
        Registry { loading: self.loading.poll(loaded), all: self.all, enabled: self.enabled }
    }

    /// The registry after a deck is switched on if it was off, and off if it
    /// was on.
    pub open spec fn toggle(self, id: u64) -> Registry {
        Registry { loading: self.loading, all: self.all, enabled: toggled(self.enabled, id) }
    }

    /// The registry is well formed: it holds finitely many decks, and only
    /// decks that it holds are enabled.
    pub open spec fn wf(self) -> bool {
        &&& self.loading.pending.finite()
        &&& self.all.finite()
        &&& self.enabled.finite()
        &&& self.enabled.subset_of(self.all)
    }
}

impl View for Topics {
    type V = Registry;

    closed spec fn view(&self) -> Registry {
        Registry {
            loading: self.loading@,
            all: members(self.all),
            enabled: members(self.enabled),
        }
    }
}

/// The handle at a place of a list.
pub fn handle_at(handles: &Vec<Handle>, index: usize) -> (handle: Handle)
    requires
        index < handles@.len(),
    ensures
        handle == handles@[index as int],
{
    handles[index]
}

impl Topics {
    /// A registry without decks.
    pub fn new() -> (topics: Topics)
        ensures
            topics@.wf(),
            topics@ == Registry::empty(),
    {
        Topics { loading: LoadState::new(), all: set_new(), enabled: set_new() }
    }

    /// Adds a deck whose load was requested: the load is awaited, and the
    /// deck is enabled.
    pub fn register(&mut self, topic: Handle)
        requires
            old(self)@.wf(),
        ensures
            final(self)@.wf(),
            final(self)@ == old(self)@.register(topic.id),
    {
        self.loading.register(topic);
        let _ = set_insert(&mut self.all, topic.id);
        let _ = set_insert(&mut self.enabled, topic.id);
    }

    /// The registry of the decks whose loads were requested, all of them
    /// enabled.
    pub fn from_handles(handles: &Vec<Handle>) -> (topics: Topics)
        ensures
            topics@.wf(),
            topics@ == (Registry {
                loading: Barrier { ready: false, pending: handle_ids(handles@) },
                all: handle_ids(handles@),
                enabled: handle_ids(handles@),
            }),
    {
        let mut topics = Topics::new();
        let mut i: usize = 0;
        proof {
            assert(handles@.take(0) =~= Seq::<Handle>::empty());
            assert(handle_ids(handles@.take(0)) =~= Set::<u64>::empty());
        }
        while i < handles.len()
            invariant
                i <= handles.len(),
                topics@.wf(),
                topics@ == (Registry {
                    loading: Barrier { ready: false, pending: handle_ids(handles@.take(i as int)) },
                    all: handle_ids(handles@.take(i as int)),
                    enabled: handle_ids(handles@.take(i as int)),
                }),
            decreases handles.len() - i,
        {
            topics.register(handles[i]);
            proof {
                crate::loading::lemma_handle_ids_push(handles@.take(i as int), handles@[i as int]);
                assert(handles@.take(i + 1) == handles@.take(i as int).push(handles@[i as int]));
            }
            i += 1;
        }
        assert(handles@.take(handles.len() as int) == handles@);
        topics
    }

    /// One poll of the barrier over the decks' loads. `loaded` holds the
    /// handles that the loader reports as fully loaded.
    pub fn poll(&mut self, loaded: &Vec<Handle>)
        requires
            old(self)@.wf(),
        ensures
            final(self)@.wf(),
            final(self)@ == old(self)@.poll(handle_ids(loaded@)),
    {
        self.loading.poll(loaded);
    }

    /// Whether the decks are ready: whether some poll has found that no
    /// deck's load was awaited any more.
    pub fn finished_loading(&self) -> (ready: bool)
        ensures
            ready == self@.loading.ready,
    {
        self.loading.finished_loading()
    }

    /// Whether the barrier still has to be polled.
    pub fn is_loading(&self) -> (loading: bool)
        ensures
            loading == !self@.loading.ready,
    {
        !self.loading.finished_loading()
    }

    /// The handles whose load is still awaited, each once.
    pub fn pending_handles(&self) -> (handles: Vec<Handle>)
        ensures
            handles@.no_duplicates(),
            handle_ids(handles@) == self@.loading.pending,
    {
        self.loading.pending_handles()
    }

    /// Whether the registry holds a deck.
    pub fn is_known(&self, topic: Handle) -> (known: bool)
        ensures
            known == self@.all.contains(topic.id),
    {
        set_contains(&self.all, topic.id)
    }

    /// Whether a deck is enabled.
    pub fn is_enabled(&self, topic: Handle) -> (enabled: bool)
        ensures
            enabled == self@.enabled.contains(topic.id),
    {
        set_contains(&self.enabled, topic.id)
    }

    /// How many decks are enabled.
    pub fn enabled_count(&self) -> (count: usize)
        ensures
            count == self@.enabled.len(),
    {
        set_len(&self.enabled)
    }

    /// The enabled decks, each once, in no particular order.
    pub fn enabled_handles(&self) -> (handles: Vec<Handle>)
        ensures
            handles@.no_duplicates(),
            handle_ids(handles@) == self@.enabled,
            handles@.len() == self@.enabled.len(),
    {
        let ids = set_items(&self.enabled);
        proof {
            ids@.unique_seq_to_set();
        }
        handles_of(&ids)
    }

    /// Switches a deck off if it is enabled, and on if it is not. The deck
    /// must be one that the registry holds.
    pub fn toggle(&mut self, topic: Handle)
        requires
            old(self)@.wf(),
            old(self)@.all.contains(topic.id),
        ensures
            final(self)@.wf(),
            final(self)@ == old(self)@.toggle(topic.id),
    {
        if set_contains(&self.enabled, topic.id) {
            let _ = set_remove(&mut self.enabled, topic.id);
        } else {
            let _ = set_insert(&mut self.enabled, topic.id);
        }
    }

    /// One of the enabled decks, each as likely as any other. At least one
    /// deck must be enabled.
    pub fn pick(&self) -> (topic: Handle)
        requires
            self@.wf(),
            self@.enabled.len() > 0,
        ensures
            self@.enabled.contains(topic.id),
    {
        let mut rng = thread_rng();
        let handles = self.enabled_handles();
        let pick = random_below(&mut rng, handles.len());
        let topic = handle_at(&handles, pick);
        assert(handle_ids(handles@).contains(topic.id));
        topic
    }
}

/// In a list that holds each of a set of decks once, every deck of the set
/// stands at exactly one place. So a place drawn with equal chances gives a
/// deck drawn with equal chances.
pub proof fn lemma_one_place_for_each_deck(handles: Seq<Handle>, decks: Set<u64>, id: u64)
    requires
        handles.no_duplicates(),
        handle_ids(handles) == decks,
        decks.contains(id),
    ensures
        exists|i: int| 0 <= i < handles.len() && #[trigger] handles[i].id == id,
        forall|i: int, j: int|
            0 <= i < handles.len() && 0 <= j < handles.len() && #[trigger] handles[i].id == id
                && #[trigger] handles[j].id == id ==> i == j,
{
    assert(handle_ids(handles).contains(id));
    assert forall|i: int, j: int|
        0 <= i < handles.len() && 0 <= j < handles.len() && #[trigger] handles[i].id == id
            && #[trigger] handles[j].id == id implies i == j by {
        assert(handles[i] == handles[j]);
    }
}

/// Toggling a deck twice leaves the enabled decks as they were.
pub proof fn lemma_toggle_twice(enabled: Set<u64>, id: u64)
    ensures
        toggled(toggled(enabled, id), id) == enabled,
{
    assert(toggled(toggled(enabled, id), id) =~= enabled);
}

/// Toggling a deck that a well-formed registry holds leaves it well formed,
/// and toggling it once more gives back the registry that was there.
pub proof fn lemma_toggle_is_involution(registry: Registry, id: u64)
    requires
        registry.wf(),
        registry.all.contains(id),
    ensures
        registry.toggle(id).wf(),
        registry.toggle(id).toggle(id) == registry,
{
    lemma_toggle_twice(registry.enabled, id);
}

} // verus!
