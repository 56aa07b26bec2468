//! Completion: candidate sources filtered case-insensitively by prefix, and
//! the dropdown that tracks a driving word and a selected candidate.

use vstd::prelude::*;
use crate::config::KeyConfig;
use crate::dbtree::{Child, ChildV, Database, Table, TableV};
use crate::err::UiError;
use crate::event::Key;
use crate::strutil;

verus! {

use crate::app::GlobalMessageQueue;
use crate::components::{CommandInfo, Component, EventState};

/// What `str::to_lowercase` returns, as a function of the characters alone.
pub uninterp spec fn lower_of(s: Seq<char>) -> Seq<char>;

/// Relies on `str::to_lowercase`: the Unicode lowercase mapping of the
/// string, a function of its characters alone; an empty string stays empty.
#[verifier::external_body]
fn lowercase(s: &str) -> (r: String)
    ensures
        r@ == lower_of(s@),
        s@.len() == 0 ==> r@.len() == 0,
{
    s.to_lowercase()
}

/// `word` is a prefix of `cand` once both are lowercased.
pub open spec fn matches_candidate(word: Seq<char>, cand: Seq<char>) -> bool {
    strutil::prefix_of(lower_of(word), lower_of(cand))
}

/// Case-insensitive prefix test used to filter candidates.
pub fn word_matches(word: &String, cand: &String) -> (r: bool)
    ensures
        r == matches_candidate(word@, cand@),
{
    let lw = lowercase(word.as_str());
    let lc = lowercase(cand.as_str());
    let lwc = strutil::chars_of(lw.as_str());
    let lcc = strutil::chars_of(lc.as_str());
    strutil::chars_prefix(&lwc, &lcc)
}

/// The names that match `word`, kept in their incoming order.
pub open spec fn filter_candidates(cands: Seq<Seq<char>>, word: Seq<char>) -> Seq<Seq<char>>
    decreases cands.len(),
{
    if cands.len() == 0 {
        Seq::empty()
    } else {
        filter_candidates(cands.drop_last(), word) + if matches_candidate(word, cands.last()) {
            seq![cands.last()]
        } else {
            Seq::empty()
        }
    }
}

fn filter_names(names: &Vec<String>, word: &String) -> (r: Vec<String>)
    ensures
        r@.map_values(|s: String| s@) == filter_candidates(
            names@.map_values(|s: String| s@),
            word@,
        ),
{
    let ghost all = names@.map_values(|s: String| s@);
    let mut out: Vec<String> = Vec::new();
    let mut i: usize = 0;
    while i < names.len()
        invariant
            i <= names@.len(),
            all == names@.map_values(|s: String| s@),
            all.len() == names@.len(),
            out@.map_values(|s: String| s@) == filter_candidates(
                all.subrange(0, i as int),
                word@,
            ),
        decreases names@.len() - i,
    {
        let ghost pre = out@.map_values(|s: String| s@);
        if word_matches(word, &names[i]) {
            out.push(names[i].clone());
            proof {
                assert(out@.map_values(|s: String| s@) =~= pre.push(all[i as int]));
            }
        }
        i = i + 1;
        proof {
            assert(all.subrange(0, i as int).drop_last() =~= all.subrange(0, i - 1));
            assert(all.subrange(0, i as int).last() == all[i - 1]);
            assert(out@.map_values(|s: String| s@) =~= filter_candidates(
                all.subrange(0, i as int),
                word@,
            ));
        }
    }
    proof {
        assert(all.subrange(0, all.len() as int) =~= all);
    }
    out
}

/// A completion source: hands back the candidates for a word part, all of
/// which match it case-insensitively by prefix.
pub trait FilterableCompletionSource {
    fn suggested_completion_items(&self, last_word_part: &String) -> (r: Result<
        Vec<String>,
        UiError,
    >)
        ensures
            (r matches Ok(items) ==> forall|i: int|
                0 <= i < items@.len() ==> matches_candidate(
                    last_word_part@,
                    (#[trigger] items@[i])@,
                )),
    ;
}

/// The built-in SQL keyword list.
pub open spec fn default_keywords() -> Seq<Seq<char>> {
    seq![
        "IN"@,
        "AND"@,
        "OR"@,
        "NOT"@,
        "NULL"@,
        "IS"@,
        "SELECT"@,
        "INSERT"@,
        "UPDATE"@,
        "DELETE"@,
        "FROM"@,
        "LIMIT"@,
        "WHERE"@,
        "LIKE"@,
    ]
}

/// The source used until a pool exists: a fixed list of SQL keywords.
pub struct DefaultFilterableCompletionSource {
    pub sql_key_words: Vec<String>,
}

impl DefaultFilterableCompletionSource {
    pub fn new() -> (r: DefaultFilterableCompletionSource)
        ensures
            r.sql_key_words@.map_values(|s: String| s@) == default_keywords(),
    {
        let mut kw: Vec<String> = Vec::new();
        kw.push(String::from_str("IN"));
        kw.push(String::from_str("AND"));
        kw.push(String::from_str("OR"));
        kw.push(String::from_str("NOT"));
        kw.push(String::from_str("NULL"));
        kw.push(String::from_str("IS"));
        kw.push(String::from_str("SELECT"));
        kw.push(String::from_str("INSERT"));
        kw.push(String::from_str("UPDATE"));
        kw.push(String::from_str("DELETE"));
        kw.push(String::from_str("FROM"));
        kw.push(String::from_str("LIMIT"));
        kw.push(String::from_str("WHERE"));
        kw.push(String::from_str("LIKE"));
        proof {
            assert(kw@.map_values(|s: String| s@) =~= default_keywords());
        }
        DefaultFilterableCompletionSource { sql_key_words: kw }
    }
}

impl FilterableCompletionSource for DefaultFilterableCompletionSource {
    fn suggested_completion_items(&self, last_word_part: &String) -> (r: Result<
        Vec<String>,
        UiError,
    >)
        ensures
            (r matches Ok(items) && items@.map_values(|s: String| s@) == filter_candidates(
                self.sql_key_words@.map_values(|s: String| s@),
                last_word_part@,
            )),
    {
        let items = filter_names(&self.sql_key_words, last_word_part);
        proof {
            lemma_filter_candidates_match(
                self.sql_key_words@.map_values(|s: String| s@),
                last_word_part@,
            );
            assert forall|i: int| 0 <= i < items@.len() implies matches_candidate(
                last_word_part@,
                (#[trigger] items@[i])@,
            ) by {
                assert(items@.map_values(|s: String| s@)[i] == items@[i]@);
            }
        }
        Ok(items)
    }
}

/// Every name a filter pass keeps matches the word.
pub proof fn lemma_filter_candidates_match(cands: Seq<Seq<char>>, word: Seq<char>)
    ensures
        forall|i: int|
            0 <= i < filter_candidates(cands, word).len() ==> matches_candidate(
                word,
                #[trigger] filter_candidates(cands, word)[i],
            ),
    decreases cands.len(),
{
    if cands.len() > 0 {
        lemma_filter_candidates_match(cands.drop_last(), word);
        let pre = filter_candidates(cands.drop_last(), word);
        let full = filter_candidates(cands, word);
        assert forall|i: int| 0 <= i < full.len() implies matches_candidate(word, full[i]) by {
            if i < pre.len() {
                assert(full[i] == pre[i]);
            } else {
                assert(full[i] == cands.last());
            }
        }
    }
}

/// A source built from what the pool reported: tables of the selected
/// database, columns of the selected table, databases, and the backend's
/// keywords.
pub struct PoolFilterableCompletionSource {
    pub tables: Vec<Table>,
    pub columns: Vec<String>,
    pub databases: Vec<Database>,
    pub key_words: Vec<String>,
}

impl PoolFilterableCompletionSource {
    /// Builds the source from already-fetched pool data.
    pub fn new(
        tables: Vec<Table>,
        columns: Vec<String>,
        databases: Vec<Database>,
        key_words: Vec<String>,
    ) -> (r: PoolFilterableCompletionSource)
        ensures
            r.tables@ == tables@,
            r.columns@ == columns@,
            r.databases@ == databases@,
            r.key_words@ == key_words@,
    {
        PoolFilterableCompletionSource { tables, columns, databases, key_words }
    }

    /// All names the source offers, in suggestion order.
    pub fn all_names(&self) -> (r: Vec<String>)
        ensures
            r@.map_values(|s: String| s@) == self.tables@.map_values(|t: Table| t@.name)
                + self.columns@.map_values(|s: String| s@) + self.databases@.map_values(
                |d: Database| d@.name,
            ) + self.key_words@.map_values(|s: String| s@),
    {
        let mut out: Vec<String> = Vec::new();
        let n1 = self.tables.len();
        let mut i: usize = 0;
        while i < n1
            invariant
                n1 == self.tables@.len(),
                i <= n1,
                out@.len() == i,
                forall|k: int| 0 <= k < i ==> (#[trigger] out@[k])@ == self.tables@[k]@.name,
            decreases n1 - i,
        {
            out.push(self.tables[i].name.clone());
            i = i + 1;
        }
        let n2 = self.columns.len();
        let mut i: usize = 0;
        while i < n2
            invariant
                n1 == self.tables@.len(),
                n2 == self.columns@.len(),
                i <= n2,
                out@.len() == n1 + i,
                forall|k: int| 0 <= k < n1 ==> (#[trigger] out@[k])@ == self.tables@[k]@.name,
                forall|j: int| n1 <= j < n1 + i ==> (#[trigger] out@[j])@ == self.columns@[j - n1]@,
            decreases n2 - i,
        {
            out.push(self.columns[i].clone());
            i = i + 1;
        }
        let n3 = self.databases.len();
        let mut i: usize = 0;
        while i < n3
            invariant
                n1 == self.tables@.len(),
                n2 == self.columns@.len(),
                n3 == self.databases@.len(),
                i <= n3,
                out@.len() == n1 + n2 + i,
                forall|k: int| 0 <= k < n1 ==> (#[trigger] out@[k])@ == self.tables@[k]@.name,
                forall|j: int| n1 <= j < n1 + n2 ==> (#[trigger] out@[j])@ == self.columns@[j - n1]@,
                forall|j: int|
                    n1 + n2 <= j < n1 + n2 + i ==> (#[trigger] out@[j])@ == self.databases@[j
                        - n1 - n2]@.name,
            decreases n3 - i,
        {
            out.push(self.databases[i].name.clone());
            i = i + 1;
        }
        let n4 = self.key_words.len();
        let mut i: usize = 0;
        while i < n4
            invariant
                n1 == self.tables@.len(),
                n2 == self.columns@.len(),
                n3 == self.databases@.len(),
                n4 == self.key_words@.len(),
                i <= n4,
                out@.len() == n1 + n2 + n3 + i,
                forall|k: int| 0 <= k < n1 ==> (#[trigger] out@[k])@ == self.tables@[k]@.name,
                forall|j: int| n1 <= j < n1 + n2 ==> (#[trigger] out@[j])@ == self.columns@[j - n1]@,
                forall|j: int|
                    n1 + n2 <= j < n1 + n2 + n3 ==> (#[trigger] out@[j])@ == self.databases@[j
                        - n1 - n2]@.name,
                forall|j: int|
                    n1 + n2 + n3 <= j < n1 + n2 + n3 + i ==> (#[trigger] out@[j])@
                        == self.key_words@[j - n1 - n2 - n3]@,
            decreases n4 - i,
        {
            out.push(self.key_words[i].clone());
            i = i + 1;
        }
        proof {
            assert(out@.map_values(|s: String| s@) =~= self.tables@.map_values(|t: Table| t@.name)
                + self.columns@.map_values(|s: String| s@) + self.databases@.map_values(
                |d: Database| d@.name,
            ) + self.key_words@.map_values(|s: String| s@));
        }
        out
    }
}

impl FilterableCompletionSource for PoolFilterableCompletionSource {
    fn suggested_completion_items(&self, last_word_part: &String) -> (r: Result<
        Vec<String>,
        UiError,
    >)
        ensures
            (r matches Ok(items) && items@.map_values(|s: String| s@) == filter_candidates(
                self.tables@.map_values(|t: Table| t@.name) + self.columns@.map_values(
                    |s: String| s@,
                ) + self.databases@.map_values(|d: Database| d@.name)
                    + self.key_words@.map_values(|s: String| s@),
                last_word_part@,
            )),
    {
        let names = self.all_names();
        let items = filter_names(&names, last_word_part);
        proof {
            lemma_filter_candidates_match(names@.map_values(|s: String| s@), last_word_part@);
            assert forall|i: int| 0 <= i < items@.len() implies matches_candidate(
                last_word_part@,
                (#[trigger] items@[i])@,
            ) by {
                assert(items@.map_values(|s: String| s@)[i] == items@[i]@);
            }
        }
        Ok(items)
    }
}

/// The table children of a database, in order, schema groups skipped.
pub open spec fn tables_only(cs: Seq<ChildV>) -> Seq<TableV>
    decreases cs.len(),
{
    if cs.len() == 0 {
        Seq::empty()
    } else {
        tables_only(cs.drop_last()) + (match cs.last() {
            ChildV::Table(t) => seq![t],
            ChildV::Schema(_) => Seq::empty(),
        })
    }
}

/// The tables among a database's children, in order.
pub fn tables_of_children(children: &Vec<Child>) -> (r: Vec<Table>)
    ensures
        r@.map_values(|t: Table| t@) == tables_only(children@.map_values(|c: Child| c@)),
{
    let ghost all = children@.map_values(|c: Child| c@);
    let mut out: Vec<Table> = Vec::new();
    let mut i: usize = 0;
    while i < children.len()
        invariant
            i <= children@.len(),
            all == children@.map_values(|c: Child| c@),
            all.len() == children@.len(),
            out@.map_values(|t: Table| t@) == tables_only(all.subrange(0, i as int)),
        decreases children@.len() - i,
    {
        let ghost pre = out@.map_values(|t: Table| t@);
        match &children[i] {
            Child::Table(t) => {
                out.push(t.clone());
                proof {
                    assert(out@.map_values(|t: Table| t@) =~= pre.push(
                        self_child_table(all[i as int]),
                    ));
                }
            },
            Child::Schema(_) => {
            },
        }
        i = i + 1;
        proof {
            assert(all.subrange(0, i as int).drop_last() =~= all.subrange(0, i - 1));
            assert(all.subrange(0, i as int).last() == all[i - 1]);
            assert(out@.map_values(|t: Table| t@) =~= tables_only(all.subrange(0, i as int)));
        }
    }
    proof {
        assert(all.subrange(0, all.len() as int) =~= all);
    }
    out
}

pub open spec fn self_child_table(c: ChildV) -> TableV
    recommends
        c is Table,
{
    match c {
        ChildV::Table(t) => t,
        ChildV::Schema(s) => arbitrary(),
    }
}

/// Where the dropdown overlay sits: anchored at the cursor, thirty columns
/// wide and up to five candidate rows tall (plus its border), clipped to
/// the frame.
pub fn dropdown_area(
    cursor_x: u16,
    cursor_y: u16,
    frame_width: u16,
    frame_height: u16,
    candidate_count: usize,
) -> (r: (u16, u16, u16, u16))
    ensures
        r.0 == cursor_x,
        r.1 == cursor_y,
        r.2 == ({
            let room: int = if frame_width >= cursor_x {
                frame_width - cursor_x
            } else {
                0
            };
            if room < 30 {
                room
            } else {
                30
            }
        }),
        r.3 == ({
            let rows: int = if candidate_count < 5 {
                candidate_count as int
            } else {
                5
            };
            let wanted = rows + 2;
            if frame_height >= cursor_y {
                if wanted <= frame_height - cursor_y {
                    wanted
                } else {
                    frame_height - cursor_y
                }
            } else {
                0
            }
        }),
{
    let width_room = if frame_width >= cursor_x {
        frame_width - cursor_x
    } else {
        0
    };
    let width = if width_room < 30 {
        width_room
    } else {
        30
    };
    let rows: u16 = if candidate_count < 5 {
        candidate_count as u16
    } else {
        5
    };
    let height_room = if frame_height >= cursor_y {
        frame_height - cursor_y
    } else {
        0
    };
    let height = if rows + 2 < height_room {
        rows + 2
    } else {
        height_room
    };
    (cursor_x, cursor_y, width, height)
}

/// The dropdown: a driving word, candidates, and a selected index.
pub struct CompletionComponent {
    pub key_config: KeyConfig,
    pub word: String,
    pub candidates: Vec<String>,
    pub selected: Option<usize>,
    pub completion_source: Box<dyn FilterableCompletionSource>,
}

/// The selected index, when present, points at a candidate.
pub open spec fn completion_inv(c: &CompletionComponent) -> bool {
    match c.selected {
        Some(i) => i < c.candidates@.len(),
        None => true,
    }
}

impl CompletionComponent {
    pub fn new(key_config: KeyConfig) -> (r: CompletionComponent)
        ensures
            completion_inv(&r),
            r.word@.len() == 0,
            r.candidates@.len() == 0,
            r.selected is None,
    {
        CompletionComponent {
            key_config,
            word: String::new(),
            candidates: Vec::new(),
            selected: None,
            completion_source: Box::new(DefaultFilterableCompletionSource::new()),
        }
    }

    /// Installs what the source answered for the current word: a successful
    /// answer becomes the candidate list with the first entry selected; a
    /// failure degrades to an empty list with no selection.
    pub fn apply_candidates(&mut self, outcome: Result<Vec<String>, UiError>)
        ensures
            completion_inv(final(self)),
            final(self).word == old(self).word,
            final(self).key_config == old(self).key_config,
            (match outcome {
                Ok(items) => final(self).candidates == items && final(self).selected == (
                if items@.len() > 0 {
                    Some(0usize)
                } else {
                    None::<usize>
                }),
                Err(_) => final(self).candidates@.len() == 0 && final(self).selected is None,
            }),
    {
        self.selected = None;
        match outcome {
            Ok(items) => {
                self.candidates = items;
            },
            Err(_) => {
                self.candidates = Vec::new();
            },
        }
        if self.candidates.len() > 0 {
            self.selected = Some(0);
        }
    }

    /// Reflects a new driving word: asks the source and installs the answer
    /// through `apply_candidates`.  What the source answers is fixed only by
    /// its own contract: every surviving candidate matches the word.
    pub fn update(&mut self, word_part: String)
        requires
            completion_inv(old(self)),
        ensures
            completion_inv(final(self)),
            final(self).word@ == word_part@,
            final(self).key_config == old(self).key_config,
            forall|i: int|
                0 <= i < final(self).candidates@.len() ==> matches_candidate(
                    word_part@,
                    (#[trigger] final(self).candidates@[i])@,
                ),
            final(self).selected == if final(self).candidates@.len() > 0 {
                Some(0usize)
            } else {
                None::<usize>
            },
    {
        self.word = word_part;
        let res = self.completion_source.suggested_completion_items(&self.word);
        self.apply_candidates(res);
    }

    /// Moves the selection one down, stopping at the last candidate.
    pub fn next(&mut self)
        requires
            completion_inv(old(self)),
        ensures
            completion_inv(final(self)),
            final(self).word == old(self).word,
            final(self).candidates == old(self).candidates,
            final(self).key_config == old(self).key_config,
            final(self).selected == (match old(self).selected {
                Some(i) => if i + 1 < old(self).candidates@.len() {
                    Some((i + 1) as usize)
                } else {
                    Some(i)
                },
                None => None::<usize>,
            }),
    {
        if let Some(i) = self.selected {
            let n = self.candidates.len();
            if i < n - 1 {
                self.selected = Some(i + 1);
            }
        }
    }

    /// Moves the selection one up, stopping at the first candidate.
    pub fn previous(&mut self)
        requires
            completion_inv(old(self)),
        ensures
            completion_inv(final(self)),
            final(self).word == old(self).word,
            final(self).candidates == old(self).candidates,
            final(self).key_config == old(self).key_config,
            final(self).selected == (match old(self).selected {
                Some(i) => if i > 0 {
                    Some((i - 1) as usize)
                } else {
                    Some(i)
                },
                None => None::<usize>,
            }),
    {
        if let Some(i) = self.selected {
            if i > 0 {
                self.selected = Some(i - 1);
            }
        }
    }

    /// The candidate under the selection, if any.
    pub fn selected_candidate(&self) -> (r: Option<String>)
        requires
            completion_inv(self),
        ensures
            match (r, self.selected) {
                (Some(s), Some(i)) => s@ == self.candidates@[i as int]@,
                (None, None) => true,
                _ => false,
            },
    {
        match self.selected {
            Some(i) => Some(self.candidates[i].clone()),
            None => None,
        }
    }

    /// The dropdown is visible exactly when the driving word is non-empty.
    pub fn is_visible(&self) -> (r: bool)
        ensures
            r == (self.word@.len() != 0),
    {
        self.word.as_str().unicode_len() != 0
    }

    /// Hides the dropdown: clears the word and the selection.
    pub fn reset(&mut self)
        ensures
            completion_inv(final(self)),
            final(self).word@.len() == 0,
            final(self).selected is None,
            final(self).candidates == old(self).candidates,
            final(self).key_config == old(self).key_config,
    {
        self.word = String::new();
        self.selected = None;
    }
}

impl Component for CompletionComponent {
    open spec fn inv(&self) -> bool {
        completion_inv(self)
    }

    fn commands(&self, _out: &mut Vec<CommandInfo>) {
    }

    /// The configured up and down keys move the selection; anything else
    /// is not consumed.
    fn event(&mut self, key: Key, _message_queue: &mut GlobalMessageQueue) -> (r: Result<
        EventState,
        UiError,
    >)
        ensures
            final(_message_queue).event_queue == old(_message_queue).event_queue,
            final(self).word == old(self).word,
            final(self).candidates == old(self).candidates,
            final(self).key_config == old(self).key_config,
            (key != old(self).key_config.move_down && key != old(self).key_config.move_up)
                ==> *final(self) == *old(self),
            key == old(self).key_config.move_down ==> final(self).selected == (match old(
                self,
            ).selected {
                Some(i) => if i + 1 < old(self).candidates@.len() {
                    Some((i + 1) as usize)
                } else {
                    Some(i)
                },
                None => None::<usize>,
            }),
            (key == old(self).key_config.move_up && key != old(self).key_config.move_down)
                ==> final(self).selected == (match old(self).selected {
                Some(i) => if i > 0 {
                    Some((i - 1) as usize)
                } else {
                    Some(i)
                },
                None => None::<usize>,
            }),
            (r matches Ok(s) && s == (if key == old(self).key_config.move_down || key == old(
                self,
            ).key_config.move_up {
                EventState::Consumed
            } else {
                EventState::NotConsumed
            })),
    {
        if key == self.key_config.move_down {
            self.next();
            Ok(EventState::Consumed)
        } else if key == self.key_config.move_up {
            self.previous();
            Ok(EventState::Consumed)
        } else {
            Ok(EventState::NotConsumed)
        }
    }

    fn reset(&mut self)
        ensures
            final(self).word@.len() == 0,
            final(self).selected is None,
            final(self).candidates == old(self).candidates,
            final(self).key_config == old(self).key_config,
    {
        self.word = String::new();
        self.selected = None;
    }
}

} // verus!
