//! The record store: three independent tables keyed by timestamp. An insert
//! whose key is already present is ignored; rows are never updated.
use vstd::prelude::*;

use crate::blob::{pack, pack_spec};
use crate::click::ClickCapture;

verus! {

/// Statements that create the store's tables when they are absent.
pub const SCHEMA: &'static str = "CREATE TABLE IF NOT EXISTS shots(
                 ts TEXT PRIMARY KEY,
                 title TEXT,
                 vec BLOB);
             CREATE TABLE IF NOT EXISTS mouse_clicks(
                 ts TEXT PRIMARY KEY,
                 x INTEGER,
                 y INTEGER,
                 x_perc REAL,
                 y_perc REAL,
                 grid BLOB,
                 vec BLOB);
             CREATE TABLE IF NOT EXISTS keystrokes(
                 ts TEXT PRIMARY KEY,
                 key TEXT,
                 title TEXT);";

#[derive(Debug, Clone, Copy, PartialEq, Eq, Structural)]
pub enum StoreError {
    /// A write came before the tables were created.
    NoSchema,
    /// A batch other than the store's schema.
    Unsupported,
}

/// A row of `shots`: a screen sample.
pub struct Shot {
    pub title: String,
    /// Packed embedding.
    pub vec: Vec<u8>,
}

/// A row of `mouse_clicks`. The fractions are `f32` bit patterns.
pub struct Click {
    pub x: i32,
    pub y: i32,
    pub x_perc: u32,
    pub y_perc: u32,
    /// The RGB window around the click.
    pub grid: Vec<u8>,
    /// Packed embedding.
    pub vec: Vec<u8>,
}

/// A row of `keystrokes`.
pub struct Keystroke {
    pub key: String,
    pub title: String,
}

/// A table: `keys[i]` is the timestamp of `rows[i]`, in order of insertion.
pub struct Table<R> {
    pub keys: Vec<String>,
    pub rows: Vec<R>,
}

pub open spec fn has_key(keys: Seq<String>, k: Seq<char>) -> bool {
    exists|i: int| 0 <= i < keys.len() && #[trigger] keys[i]@ == k
}

pub open spec fn keys_unique(keys: Seq<String>) -> bool {
    forall|i: int, j: int| 0 <= i < j < keys.len() ==> keys[i]@ != keys[j]@
}

/// A table's contents after inserting `row` under `k`, unless `k` is taken.
pub open spec fn insert_model<R>(keys: Seq<String>, rows: Seq<R>, k: String, row: R) -> (Seq<
    String,
>, Seq<R>) {
    if has_key(keys, k@) {
        (keys, rows)
    } else {
        (keys.push(k), rows.push(row))
    }
}

impl<R> Table<R> {
    pub open spec fn wf(&self) -> bool {
        &&& self.keys@.len() == self.rows@.len()
        &&& keys_unique(self.keys@)
    }

    pub fn new() -> (r: Table<R>)
        ensures
            r.wf(),
            r.keys@.len() == 0,
    {
        Table { keys: Vec::new(), rows: Vec::new() }
    }

    pub fn len(&self) -> (r: usize)
        ensures
            r == self.keys@.len(),
    {
        self.keys.len()
    }

    /// Whether a row is stored under `k`.
    pub fn contains(&self, k: &String) -> (r: bool)
        ensures
            r == has_key(self.keys@, k@),
    {
        let mut i: usize = 0;
        while i < self.keys.len()
            invariant
                i <= self.keys@.len(),
                forall|j: int| 0 <= j < i ==> self.keys@[j]@ != k@,
            decreases self.keys@.len() - i,
        {
            if self.keys[i] == *k {
                return true;
            }
            i += 1;
        }
        false
    }

    /// Stores `row` under `k` unless a row is stored there already; returns
    /// whether it was stored.
    pub fn insert_or_ignore(&mut self, k: String, row: R) -> (inserted: bool)
        requires
            old(self).wf(),
        ensures
            final(self).wf(),
            inserted == !has_key(old(self).keys@, k@),
            (final(self).keys@, final(self).rows@) == insert_model(
                old(self).keys@,
                old(self).rows@,
                k,
                row,
            ),
    {
        if self.contains(&k) {
            return false;
        }
        self.keys.push(k);
        self.rows.push(row);
        assert forall|i: int, j: int| 0 <= i < j < self.keys@.len() implies self.keys@[i]@
            != self.keys@[j]@ by {
            if j == self.keys@.len() - 1 {
                assert(old(self).keys@[i] == self.keys@[i]);
            }
        }
        true
    }
}

/// Inserting twice under one key leaves what the first insert left: the
/// key is held by exactly one row, the first insert's, and the second row
/// is ignored.
pub proof fn lemma_insert_idempotent<R>(
    keys: Seq<String>,
    rows: Seq<R>,
    k1: String,
    k2: String,
    a: R,
    b: R,
)
    requires
        keys_unique(keys),
        keys.len() == rows.len(),
        k1@ == k2@,
    ensures
        ({
            let m1 = insert_model(keys, rows, k1, a);
            &&& insert_model(m1.0, m1.1, k2, b) == m1
            &&& keys_unique(m1.0)
            &&& m1.0.len() == m1.1.len()
            &&& !has_key(keys, k1@) ==> m1.0.len() == keys.len() + 1 && m1.0.last()@ == k1@
                && m1.1.last() == a
        }),
{
    let m1 = insert_model(keys, rows, k1, a);
    if !has_key(keys, k1@) {
        assert(m1.0[keys.len() as int]@ == k1@);
        assert forall|i: int, j: int| 0 <= i < j < m1.0.len() implies m1.0[i]@ != m1.0[j]@ by {
            if j == keys.len() {
                assert(m1.0[i] == keys[i]);
            }
        }
    }
    assert(has_key(m1.0, k2@));
}

/// The record store: one table per record kind.
pub struct Connection {
    pub path: String,
    /// Whether the tables have been created.
    pub schema_ready: bool,
    pub shots: Table<Shot>,
    pub clicks: Table<Click>,
    pub keystrokes: Table<Keystroke>,
}

impl Connection {
    pub open spec fn wf(&self) -> bool {
        self.shots.wf() && self.clicks.wf() && self.keystrokes.wf()
    }

    /// Opens an empty store at `path`; its tables do not exist yet.
    pub fn open(path: &str) -> (r: Result<Connection, StoreError>)
        ensures
            r is Ok,
            r->Ok_0.wf(),
            r->Ok_0.path@ == path@,
            !r->Ok_0.schema_ready,
            r->Ok_0.shots.keys@.len() == 0,
            r->Ok_0.clicks.keys@.len() == 0,
            r->Ok_0.keystrokes.keys@.len() == 0,
    {
        Ok(
            Connection {
                path: path.to_owned(),
                schema_ready: false,
                shots: Table::new(),
                clicks: Table::new(),
                keystrokes: Table::new(),
            },
        )
    }

    /// Runs a batch of statements. The store knows one batch, `SCHEMA`, which
    /// creates the tables when absent and leaves existing rows alone; any
    /// other batch is refused and changes nothing.
    pub fn execute_batch(&mut self, sql: &str) -> (r: Result<(), StoreError>)
        ensures
            r is Ok <==> sql@ == SCHEMA@,
            r is Err ==> r->Err_0 == StoreError::Unsupported && *final(self) == *old(self),
            r is Ok ==> final(self).schema_ready,
            final(self).path == old(self).path,
            final(self).shots == old(self).shots,
            final(self).clicks == old(self).clicks,
            final(self).keystrokes == old(self).keystrokes,
    {
        let given = sql.to_owned();
        let known = SCHEMA.to_owned();
        if given == known {
            self.schema_ready = true;
            Ok(())
        } else {
            Err(StoreError::Unsupported)
        }
    }

    /// Inserts a screen sample unless one is stored under `ts`; returns
    /// whether it was stored.
    pub fn insert_shot(&mut self, ts: String, title: String, vec: Vec<u8>) -> (r: Result<
        bool,
        StoreError,
    >)
        requires
            old(self).wf(),
        ensures
            final(self).wf(),
            r is Err <==> !old(self).schema_ready,
            r is Err ==> r->Err_0 == StoreError::NoSchema && *final(self) == *old(self),
            r is Ok ==> r->Ok_0 == !has_key(old(self).shots.keys@, ts@) && (
            final(self).shots.keys@,
            final(self).shots.rows@,
            ) == insert_model(old(self).shots.keys@, old(self).shots.rows@, ts, Shot { title, vec }),
            final(self).schema_ready == old(self).schema_ready,
            final(self).path == old(self).path,
            final(self).clicks == old(self).clicks,
            final(self).keystrokes == old(self).keystrokes,
    {
        if !self.schema_ready {
            return Err(StoreError::NoSchema);
        }
        Ok(self.shots.insert_or_ignore(ts, Shot { title, vec }))
    }

    /// Inserts a click unless one is stored under `ts`; returns whether it
    /// was stored.
    pub fn insert_click(
        &mut self,
        ts: String,
        x: i32,
        y: i32,
        x_perc: u32,
        y_perc: u32,
        grid: Vec<u8>,
        vec: Vec<u8>,
    ) -> (r: Result<bool, StoreError>)
        requires
            old(self).wf(),
        ensures
            final(self).wf(),
            r is Err <==> !old(self).schema_ready,
            r is Err ==> r->Err_0 == StoreError::NoSchema && *final(self) == *old(self),
            r is Ok ==> r->Ok_0 == !has_key(old(self).clicks.keys@, ts@) && (
            final(self).clicks.keys@,
            final(self).clicks.rows@,
            ) == insert_model(
                old(self).clicks.keys@,
                old(self).clicks.rows@,
                ts,
                Click { x, y, x_perc, y_perc, grid, vec },
            ),
            final(self).schema_ready == old(self).schema_ready,
            final(self).path == old(self).path,
            final(self).shots == old(self).shots,
            final(self).keystrokes == old(self).keystrokes,
    {
        if !self.schema_ready {
            return Err(StoreError::NoSchema);
        }
        Ok(self.clicks.insert_or_ignore(ts, Click { x, y, x_perc, y_perc, grid, vec }))
    }

    /// Inserts a key press unless one is stored under `ts`; returns whether
    /// it was stored.
    pub fn insert_key(&mut self, ts: String, key: String, title: String) -> (r: Result<
        bool,
        StoreError,
    >)
        requires
            old(self).wf(),
        ensures
            final(self).wf(),
            r is Err <==> !old(self).schema_ready,
            r is Err ==> r->Err_0 == StoreError::NoSchema && *final(self) == *old(self),
            r is Ok ==> r->Ok_0 == !has_key(old(self).keystrokes.keys@, ts@) && (
            final(self).keystrokes.keys@,
            final(self).keystrokes.rows@,
            ) == insert_model(
                old(self).keystrokes.keys@,
                old(self).keystrokes.rows@,
                ts,
                Keystroke { key, title },
            ),
            final(self).schema_ready == old(self).schema_ready,
            final(self).path == old(self).path,
            final(self).shots == old(self).shots,
            final(self).clicks == old(self).clicks,
    {
        if !self.schema_ready {
            return Err(StoreError::NoSchema);
        }
        Ok(self.keystrokes.insert_or_ignore(ts, Keystroke { key, title }))
    }

    /// Stores a screen sample whose embedding is given as `f32` bit patterns,
    /// packed little-endian; returns whether it was stored.
    pub fn record_shot(&mut self, ts: String, title: String, embedding: &Vec<u32>) -> (r: Result<
        bool,
        StoreError,
    >)
        requires
            old(self).wf(),
            4 * embedding@.len() <= usize::MAX,
        ensures
            final(self).wf(),
            r is Err <==> !old(self).schema_ready,
            r is Err ==> r->Err_0 == StoreError::NoSchema && *final(self) == *old(self),
            r is Ok ==> r->Ok_0 == !has_key(old(self).shots.keys@, ts@),
            r == Ok::<bool, StoreError>(false) ==> final(self).shots.keys@ == old(self).shots.keys@
                && final(self).shots.rows@ == old(self).shots.rows@,
            r == Ok::<bool, StoreError>(true) ==> {
                let rows = final(self).shots.rows@;
                &&& final(self).shots.keys@ == old(self).shots.keys@.push(ts)
                &&& rows.drop_last() == old(self).shots.rows@
                &&& rows.last().title == title
                &&& rows.last().vec@ == pack_spec(embedding@)
            },
            final(self).schema_ready == old(self).schema_ready,
            final(self).path == old(self).path,
            final(self).clicks == old(self).clicks,
            final(self).keystrokes == old(self).keystrokes,
    {
        let vec = pack(embedding);
        let r = self.insert_shot(ts, title, vec);
        proof {
            if r == Ok::<bool, StoreError>(true) {
                assert(self.shots.rows@.drop_last() =~= old(self).shots.rows@);
            }
        }
        r
    }

    /// Stores a click from its capture, the click's position as fractions of
    /// the frame (`f32` bit patterns) and its embedding (`f32` bit patterns,
    /// packed little-endian); returns whether it was stored.
    pub fn record_click(
        &mut self,
        ts: String,
        capture: ClickCapture,
        x_perc: u32,
        y_perc: u32,
        embedding: &Vec<u32>,
    ) -> (r: Result<bool, StoreError>)
        requires
            old(self).wf(),
            4 * embedding@.len() <= usize::MAX,
        ensures
            final(self).wf(),
            r is Err <==> !old(self).schema_ready,
            r is Err ==> r->Err_0 == StoreError::NoSchema && *final(self) == *old(self),
            r is Ok ==> r->Ok_0 == !has_key(old(self).clicks.keys@, ts@),
            r == Ok::<bool, StoreError>(false) ==> final(self).clicks.keys@ == old(self).clicks.keys@
                && final(self).clicks.rows@ == old(self).clicks.rows@,
            r == Ok::<bool, StoreError>(true) ==> {
                let rows = final(self).clicks.rows@;
                &&& final(self).clicks.keys@ == old(self).clicks.keys@.push(ts)
                &&& rows.drop_last() == old(self).clicks.rows@
                &&& rows.last().x == capture.x
                &&& rows.last().y == capture.y
                &&& rows.last().x_perc == x_perc
                &&& rows.last().y_perc == y_perc
                &&& rows.last().grid == capture.grid
                &&& rows.last().vec@ == pack_spec(embedding@)
            },
            final(self).schema_ready == old(self).schema_ready,
            final(self).path == old(self).path,
            final(self).shots == old(self).shots,
            final(self).keystrokes == old(self).keystrokes,
    {
        let vec = pack(embedding);
        let r = self.insert_click(ts, capture.x, capture.y, x_perc, y_perc, capture.grid, vec);
        proof {
            if r == Ok::<bool, StoreError>(true) {
                assert(self.clicks.rows@.drop_last() =~= old(self).clicks.rows@);
            }
        }
        r
    }
}

} // verus!
