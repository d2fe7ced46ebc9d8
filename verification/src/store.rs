//! The vector store: a SQLite-backed repository of documents, chunks and
//! embeddings.
//!
//! The three tables are modeled as maps from row id to the row's plain
//! values; every trusted call into the database states, over those maps,
//! what the fixed SQL statement it runs does. The binary vector codec
//! and everything layered above the calls is verified.

use vstd::prelude::*;
use rusqlite::OptionalExtension;
use crate::codec::{bytes_to_vector, spec_decode, spec_encode, vector_to_bytes};
use crate::domain::{Chunk, Document, Embedding};
use crate::error::VectDbError;

verus! {

#[verifier::external_type_specification]
#[verifier::external_body]
pub struct ExConnection(rusqlite::Connection);

/// The sole owner of one database handle; all persisted state lives
/// behind it.
pub struct VectorStore {
    conn: rusqlite::Connection,
}

/// The documents table of a store: id to (source, content fingerprint,
/// creation timestamp). Row metadata is not modeled.
pub uninterp spec fn docs_of(s: VectorStore) -> Map<int, (Seq<char>, Seq<char>, int)>;

/// The chunks table of a store: id to (owning document id, ordinal,
/// content, token estimate).
pub uninterp spec fn chunks_of(s: VectorStore) -> Map<int, (int, int, Seq<char>, Option<int>)>;

/// The embeddings table of a store: chunk id to (model, vector bytes,
/// declared dimension).
pub uninterp spec fn embs_of(s: VectorStore) -> Map<int, (Seq<char>, Seq<u8>, int)>;

/// A documents table with no rows.
pub open spec fn no_docs() -> Map<int, (Seq<char>, Seq<char>, int)> {
    Map::empty()
}

/// A chunks table with no rows.
pub open spec fn no_chunks() -> Map<int, (int, int, Seq<char>, Option<int>)> {
    Map::empty()
}

/// An embeddings table with no rows.
pub open spec fn no_embs() -> Map<int, (Seq<char>, Seq<u8>, int)> {
    Map::empty()
}

/// Whether the three tables are finite, as any real database's are.
pub open spec fn tables_finite(s: VectorStore) -> bool {
    docs_of(s).dom().finite() && chunks_of(s).dom().finite() && embs_of(s).dom().finite()
}

/// A token estimate as the store records it.
pub open spec fn spec_opt_int(t: Option<usize>) -> Option<int> {
    match t {
        Some(v) => Some(v as int),
        None => None,
    }
}

/// One row of the similarity scan's join: an embedding with its chunk's
/// and its document's stored fields, flat and as stored.
#[derive(Debug, Clone)]
pub struct SearchRow {
    /// The chunk the embedding belongs to.
    pub chunk_id: i64,
    /// The chunk's owning document.
    pub document_id: i64,
    /// The chunk's ordinal within its document.
    pub chunk_index: i64,
    /// The chunk's text.
    pub content: String,
    /// The chunk's token estimate.
    pub token_count: Option<i64>,
    /// The document's source path or URL.
    pub source: String,
    /// The document's content fingerprint.
    pub content_hash: String,
    /// The document's creation timestamp.
    pub created_at: i64,
    /// The stored vector, encoded.
    pub vector_bytes: Vec<u8>,
    /// The stored dimension column.
    pub dimension: i64,
}

/// A stored token estimate as an integer option.
pub open spec fn spec_opt_i64(t: Option<i64>) -> Option<int> {
    match t {
        Some(v) => Some(v as int),
        None => None,
    }
}

/// Counts and size of the persisted state.
#[derive(Debug, Clone, Copy, PartialEq, Eq, Structural)]
pub struct DatabaseStats {
    /// Documents stored.
    pub document_count: i64,
    /// Chunks stored.
    pub chunk_count: i64,
    /// Embeddings stored.
    pub embedding_count: i64,
    /// Database size in bytes.
    pub db_size_bytes: i64,
}

/// What the similarity scan's join answers for a model: each row is an
/// embedding stored under the model whose chunk and document rows exist,
/// with their stored fields; no chunk appears twice; and every such
/// stored embedding appears.
pub open spec fn spec_join_rows(s: VectorStore, model: Seq<char>, rows: Seq<SearchRow>) -> bool {
    &&& forall|i: int|
        0 <= i < rows.len() ==> {
            let row = #[trigger] rows[i];
            &&& embs_of(s).contains_key(row.chunk_id as int)
            &&& embs_of(s)[row.chunk_id as int] == (
                model,
                row.vector_bytes@,
                row.dimension as int,
            )
            &&& chunks_of(s).contains_key(row.chunk_id as int)
            &&& chunks_of(s)[row.chunk_id as int] == (
                row.document_id as int,
                row.chunk_index as int,
                row.content@,
                spec_opt_i64(row.token_count),
            )
            &&& docs_of(s).contains_key(row.document_id as int)
            &&& docs_of(s)[row.document_id as int] == (
                row.source@,
                row.content_hash@,
                row.created_at as int,
            )
        }
    &&& forall|i: int, j: int|
        0 <= i < j < rows.len() ==> (#[trigger] rows[i]).chunk_id != (#[trigger] rows[j]).chunk_id
    &&& forall|cid: int|
        embs_of(s).contains_key(cid) && (#[trigger] embs_of(s)[cid]).0 == model && chunks_of(
            s,
        ).contains_key(cid) && docs_of(s).contains_key(chunks_of(s)[cid].0) ==> exists|i: int|
            0 <= i < rows.len() && (#[trigger] rows[i]).chunk_id == cid
}

impl VectorStore {
    /// Relies on `rusqlite::Connection::open_in_memory` and
    /// `Connection::execute` running fixed DDL: a fresh in-memory
    /// database holds the three tables, all empty.
    #[verifier::external_body]
    pub fn in_memory() -> (r: Result<VectorStore, VectDbError>)
        ensures
            r matches Ok(s) ==> docs_of(s) == no_docs() && chunks_of(s) == no_chunks()
                && embs_of(s) == no_embs(),
    {
        let db = |e: rusqlite::Error| VectDbError::Database(e.to_string());
        let conn = rusqlite::Connection::open_in_memory().map_err(db)?;
        conn.pragma_update(None, "foreign_keys", true).map_err(db)?;
        conn.execute("CREATE TABLE IF NOT EXISTS documents (id INTEGER PRIMARY KEY AUTOINCREMENT, source TEXT NOT NULL, content_hash TEXT UNIQUE NOT NULL, metadata TEXT, created_at INTEGER NOT NULL)", ()).map_err(db)?;
        conn.execute("CREATE TABLE IF NOT EXISTS chunks (id INTEGER PRIMARY KEY AUTOINCREMENT, document_id INTEGER NOT NULL, chunk_index INTEGER NOT NULL, content TEXT NOT NULL, token_count INTEGER, FOREIGN KEY (document_id) REFERENCES documents(id) ON DELETE CASCADE, UNIQUE(document_id, chunk_index))", ()).map_err(db)?;
        conn.execute("CREATE TABLE IF NOT EXISTS embeddings (chunk_id INTEGER PRIMARY KEY, model TEXT NOT NULL, vector BLOB NOT NULL, dimension INTEGER NOT NULL, FOREIGN KEY (chunk_id) REFERENCES chunks(id) ON DELETE CASCADE)", ()).map_err(db)?;
        conn.execute("CREATE INDEX IF NOT EXISTS idx_chunks_document ON chunks(document_id)", ()).map_err(db)?;
        conn.execute("CREATE INDEX IF NOT EXISTS idx_embeddings_model ON embeddings(model)", ()).map_err(db)?;
        Ok(VectorStore { conn })
    }

    /// Relies on `rusqlite::Connection::open` and `Connection::execute`
    /// running fixed DDL: the database file at this path is opened (or
    /// created), write-ahead logging is enabled, and the three tables
    /// exist; their contents are whatever the file held, hence finite.
    #[verifier::external_body]
    pub fn new(db_path: &str) -> (r: Result<VectorStore, VectDbError>)
        ensures
            r matches Ok(s) ==> tables_finite(s),
    {
        let db = |e: rusqlite::Error| VectDbError::Database(e.to_string());
        let conn = rusqlite::Connection::open(db_path).map_err(db)?;
        conn.pragma_update(None, "journal_mode", "WAL").map_err(db)?;
        conn.pragma_update(None, "synchronous", "NORMAL").map_err(db)?;
        conn.pragma_update(None, "foreign_keys", true).map_err(db)?;
        conn.execute("CREATE TABLE IF NOT EXISTS documents (id INTEGER PRIMARY KEY AUTOINCREMENT, source TEXT NOT NULL, content_hash TEXT UNIQUE NOT NULL, metadata TEXT, created_at INTEGER NOT NULL)", ()).map_err(db)?;
        conn.execute("CREATE TABLE IF NOT EXISTS chunks (id INTEGER PRIMARY KEY AUTOINCREMENT, document_id INTEGER NOT NULL, chunk_index INTEGER NOT NULL, content TEXT NOT NULL, token_count INTEGER, FOREIGN KEY (document_id) REFERENCES documents(id) ON DELETE CASCADE, UNIQUE(document_id, chunk_index))", ()).map_err(db)?;
        conn.execute("CREATE TABLE IF NOT EXISTS embeddings (chunk_id INTEGER PRIMARY KEY, model TEXT NOT NULL, vector BLOB NOT NULL, dimension INTEGER NOT NULL, FOREIGN KEY (chunk_id) REFERENCES chunks(id) ON DELETE CASCADE)", ()).map_err(db)?;
        conn.execute("CREATE INDEX IF NOT EXISTS idx_chunks_document ON chunks(document_id)", ()).map_err(db)?;
        conn.execute("CREATE INDEX IF NOT EXISTS idx_embeddings_model ON embeddings(model)", ()).map_err(db)?;
        Ok(VectorStore { conn })
    }

    /// Relies on `rusqlite::Connection::execute` running a fixed
    /// `INSERT INTO documents`: on success, SQLite assigns a fresh
    /// positive row id and the row holds the given values; on failure
    /// (as when the fingerprint's uniqueness constraint bites) nothing
    /// changes.
    #[verifier::external_body]
    pub fn insert_document(&mut self, doc: &Document) -> (r: Result<i64, VectDbError>)
        ensures
            r matches Ok(id) ==> id > 0 && !docs_of(*old(self)).contains_key(id as int) && docs_of(*final(self)) == docs_of(*old(self)).insert(
                id as int,
                (doc.source@, doc.content_hash@, doc.created_at as int),
            ) && chunks_of(*final(self)) == chunks_of(*old(self)) && embs_of(*final(self)) == embs_of(*old(self)),
            r is Err ==> docs_of(*final(self)) == docs_of(*old(self)) && chunks_of(*final(self)) == chunks_of(*old(self)) && embs_of(*final(self)) == embs_of(*old(self)),
    {
        let mut m = serde_json::Map::new();
        for (k, v) in doc.metadata.iter() { m.insert(k.clone(), serde_json::Value::String(v.clone())); }
        let meta = serde_json::to_string(&serde_json::Value::Object(m)).map_err(|e| VectDbError::Serialization(e.to_string()))?;
        self.conn.execute(
            "INSERT INTO documents (source, content_hash, metadata, created_at) VALUES (?1, ?2, ?3, ?4)",
            (&doc.source, &doc.content_hash, &meta, doc.created_at),
        ).map_err(|e| VectDbError::Database(e.to_string()))?;
        Ok(self.conn.last_insert_rowid())
    }

    /// Relies on `rusqlite::Connection::query_row` running a fixed
    /// `SELECT ... WHERE id = ?`: the answer is the row with that id,
    /// or nothing when no such row exists.
    #[verifier::external_body]
    pub fn get_document(&self, id: i64) -> (r: Result<Option<Document>, VectDbError>)
        ensures
            r matches Ok(Some(d)) ==> docs_of(*self).contains_key(id as int) && d.id == Some(id)
                && docs_of(*self)[id as int] == (d.source@, d.content_hash@, d.created_at as int),
            r matches Ok(None) ==> !docs_of(*self).contains_key(id as int),
    {
        self.conn.query_row(
            "SELECT id, source, content_hash, metadata, created_at FROM documents WHERE id = ?1",
            (id,),
            |row| {
                Ok(Document {
                    id: Some(row.get(0)?),
                    source: row.get(1)?,
                    content_hash: row.get(2)?,
                    metadata: serde_json::from_str::<serde_json::Map<String, serde_json::Value>>(&row.get::<_, String>(3)?).map(|m| m.into_iter().filter_map(|(k, v)| v.as_str().map(|s| (k, s.to_string()))).collect()).unwrap_or_default(),
                    created_at: row.get(4)?,
                })
            },
        ).optional().map_err(|e| VectDbError::Database(e.to_string()))
    }

    /// Relies on `rusqlite::Connection::query_row` running a fixed
    /// `SELECT ... WHERE content_hash = ?`: the answer is a row carrying
    /// that fingerprint, or nothing when no row carries it.
    #[verifier::external_body]
    pub fn get_document_by_hash(&self, content_hash: &str) -> (r: Result<
        Option<Document>,
        VectDbError,
    >)
        ensures
            r matches Ok(Some(d)) ==> d.id matches Some(i) && docs_of(*self).contains_key(i as int)
                && docs_of(*self)[i as int] == (d.source@, content_hash@, d.created_at as int)
                && d.content_hash@ == content_hash@,
            r matches Ok(None) ==> forall|i: int|
                docs_of(*self).contains_key(i) ==> (#[trigger] docs_of(*self)[i]).1 != content_hash@,
    {
        self.conn.query_row(
            "SELECT id, source, content_hash, metadata, created_at FROM documents WHERE content_hash = ?1",
            (content_hash,),
            |row| {
                Ok(Document {
                    id: Some(row.get(0)?),
                    source: row.get(1)?,
                    content_hash: row.get(2)?,
                    metadata: serde_json::from_str::<serde_json::Map<String, serde_json::Value>>(&row.get::<_, String>(3)?).map(|m| m.into_iter().filter_map(|(k, v)| v.as_str().map(|s| (k, s.to_string()))).collect()).unwrap_or_default(),
                    created_at: row.get(4)?,
                })
            },
        ).optional().map_err(|e| VectDbError::Database(e.to_string()))
    }

    /// Relies on `rusqlite::Connection::query_row` running a fixed
    /// `SELECT COUNT(*) FROM documents`: the row count of the table.
    #[verifier::external_body]
    pub fn count_documents(&self) -> (r: Result<i64, VectDbError>)
        requires
            docs_of(*self).dom().finite(),
        ensures
            r matches Ok(n) ==> n as int == docs_of(*self).dom().len(),
    {
        self.conn.query_row("SELECT COUNT(*) FROM documents", (), |row| row.get(0)).map_err(|e| VectDbError::Database(e.to_string()))
    }

    /// Relies on `rusqlite::Connection::execute` running a fixed
    /// `INSERT INTO chunks`: on success, SQLite assigns a fresh positive
    /// row id and the row holds the given values; on failure (as when
    /// the (document, ordinal) uniqueness constraint bites) nothing
    /// changes.
    #[verifier::external_body]
    pub fn insert_chunk(&mut self, chunk: &Chunk) -> (r: Result<i64, VectDbError>)
        ensures
            r matches Ok(id) ==> id > 0 && !chunks_of(*old(self)).contains_key(id as int) && chunks_of(*final(self)) == chunks_of(*old(self)).insert(
                id as int,
                (
                    chunk.document_id as int,
                    chunk.chunk_index as int,
                    chunk.content@,
                    spec_opt_int(chunk.token_count),
                ),
            ) && docs_of(*final(self)) == docs_of(*old(self)) && embs_of(*final(self)) == embs_of(*old(self)),
            r is Err ==> docs_of(*final(self)) == docs_of(*old(self)) && chunks_of(*final(self)) == chunks_of(*old(self)) && embs_of(*final(self)) == embs_of(*old(self)),
    {
        self.conn.execute(
            "INSERT INTO chunks (document_id, chunk_index, content, token_count) VALUES (?1, ?2, ?3, ?4)",
            (chunk.document_id, chunk.chunk_index as i64, &chunk.content, chunk.token_count.map(|t| t as i64)),
        ).map_err(|e| VectDbError::Database(e.to_string()))?;
        Ok(self.conn.last_insert_rowid())
    }

    /// Relies on `rusqlite::Connection::query_row` running a fixed
    /// `SELECT ... WHERE id = ?` on the chunks table.
    #[verifier::external_body]
    pub fn get_chunk(&self, id: i64) -> (r: Result<Option<Chunk>, VectDbError>)
        ensures
            r matches Ok(Some(c)) ==> chunks_of(*self).contains_key(id as int) && c.id == Some(id)
                && chunks_of(*self)[id as int] == (
                c.document_id as int,
                c.chunk_index as int,
                c.content@,
                spec_opt_int(c.token_count),
            ),
            r matches Ok(None) ==> !chunks_of(*self).contains_key(id as int),
    {
        self.conn.query_row(
            "SELECT id, document_id, chunk_index, content, token_count FROM chunks WHERE id = ?1",
            (id,),
            |row| {
                Ok(Chunk {
                    id: Some(row.get(0)?),
                    document_id: row.get(1)?,
                    chunk_index: row.get::<_, i64>(2)? as usize,
                    content: row.get(3)?,
                    token_count: row.get::<_, Option<i64>>(4)?.map(|t| t as usize),
                })
            },
        ).optional().map_err(|e| VectDbError::Database(e.to_string()))
    }

    /// Relies on `rusqlite::Statement::query_map` running a fixed
    /// `SELECT ... WHERE document_id = ? ORDER BY chunk_index`: every
    /// chunk of the document, each exactly once, ordered by ordinal.
    #[verifier::external_body]
    pub fn get_chunks_for_document(&self, document_id: i64) -> (r: Result<Vec<Chunk>, VectDbError>)
        ensures
            r matches Ok(v) ==> (forall|i: int|
                0 <= i < v@.len() ==> ((#[trigger] v@[i]).id matches Some(cid)
                    && chunks_of(*self).contains_key(cid as int) && chunks_of(*self)[cid as int] == (
                    document_id as int,
                    v@[i].chunk_index as int,
                    v@[i].content@,
                    spec_opt_int(v@[i].token_count),
                ) && v@[i].document_id == document_id)) && (forall|i: int, j: int|
                0 <= i < j < v@.len() ==> (#[trigger] v@[i]).chunk_index <= (#[trigger] v@[j]).chunk_index && v@[i].id != v@[j].id) && (forall|cid: int|
                chunks_of(*self).contains_key(cid) && (#[trigger] chunks_of(*self)[cid]).0
                    == document_id as int ==> exists|i: int|
                    0 <= i < v@.len() && (#[trigger] v@[i]).id == Some(cid as i64)),
    {
        let mut stmt = self.conn.prepare(
            "SELECT id, document_id, chunk_index, content, token_count FROM chunks WHERE document_id = ?1 ORDER BY chunk_index",
        ).map_err(|e| VectDbError::Database(e.to_string()))?;
        let rows = stmt.query_map((document_id,), |row| {
            Ok(Chunk {
                id: Some(row.get(0)?),
                document_id: row.get(1)?,
                chunk_index: row.get::<_, i64>(2)? as usize,
                content: row.get(3)?,
                token_count: row.get::<_, Option<i64>>(4)?.map(|t| t as usize),
            })
        }).map_err(|e| VectDbError::Database(e.to_string()))?;
        rows.collect::<Result<Vec<_>, _>>().map_err(|e| VectDbError::Database(e.to_string()))
    }

    /// Relies on `rusqlite::Connection::query_row` running a fixed
    /// `SELECT COUNT(*) FROM chunks`.
    #[verifier::external_body]
    pub fn count_chunks(&self) -> (r: Result<i64, VectDbError>)
        requires
            chunks_of(*self).dom().finite(),
        ensures
            r matches Ok(n) ==> n as int == chunks_of(*self).dom().len(),
    {
        self.conn.query_row("SELECT COUNT(*) FROM chunks", (), |row| row.get(0)).map_err(|e| VectDbError::Database(e.to_string()))
    }

    /// Relies on `rusqlite::Connection::execute` running a fixed
    /// `INSERT OR REPLACE INTO embeddings`: on success the chunk's row
    /// holds exactly the given values, replacing any prior vector for
    /// the chunk; on failure (as when no such chunk exists) nothing
    /// changes.
    #[verifier::external_body]
    fn store_embedding_bytes(
        &mut self,
        chunk_id: i64,
        model: &str,
        bytes: &Vec<u8>,
        dimension: i64,
    ) -> (r: Result<(), VectDbError>)
        ensures
            r is Ok ==> embs_of(*final(self)) == embs_of(*old(self)).insert(
                chunk_id as int,
                (model@, bytes@, dimension as int),
            ) && docs_of(*final(self)) == docs_of(*old(self)) && chunks_of(*final(self)) == chunks_of(*old(self)),
            r is Err ==> docs_of(*final(self)) == docs_of(*old(self)) && chunks_of(*final(self)) == chunks_of(*old(self)) && embs_of(*final(self)) == embs_of(*old(self)),
    {
        self.conn.execute(
            "INSERT OR REPLACE INTO embeddings (chunk_id, model, vector, dimension) VALUES (?1, ?2, ?3, ?4)",
            (chunk_id, model, bytes, dimension),
        ).map_err(|e| VectDbError::Database(e.to_string()))?;
        Ok(())
    }

    /// Store (or overwrite) the embedding of one chunk: the vector is
    /// serialized by the binary codec, so the stored bytes are exactly
    /// the components in little-endian order.
    pub fn upsert_embedding(&mut self, embedding: &Embedding) -> (r: Result<(), VectDbError>)
        requires
            embedding.vector@.len() * 4 <= usize::MAX,
            embedding.dimension == embedding.vector@.len(),
        ensures
            r is Ok ==> embs_of(*final(self)) == embs_of(*old(self)).insert(
                embedding.chunk_id as int,
                (embedding.model@, spec_encode(embedding.vector@), embedding.dimension as int),
            ) && docs_of(*final(self)) == docs_of(*old(self)) && chunks_of(*final(self)) == chunks_of(*old(self)),
            r is Err ==> docs_of(*final(self)) == docs_of(*old(self)) && chunks_of(*final(self)) == chunks_of(*old(self)) && embs_of(*final(self)) == embs_of(*old(self)),
    {
        let bytes = vector_to_bytes(&embedding.vector);
        let dimension = embedding.dimension as i64;
        self.store_embedding_bytes(embedding.chunk_id, embedding.model.as_str(), &bytes, dimension)
    }

    /// Relies on `rusqlite::Connection::query_row` running a fixed
    /// `SELECT ... FROM embeddings WHERE chunk_id = ?`.
    #[verifier::external_body]
    fn get_embedding_row(&self, chunk_id: i64) -> (r: Result<
        Option<(String, Vec<u8>, i64)>,
        VectDbError,
    >)
        ensures
            r matches Ok(Some(row)) ==> embs_of(*self).contains_key(chunk_id as int) && embs_of(*self)[
                chunk_id as int
            ] == (row.0@, row.1@, row.2 as int),
            r matches Ok(None) ==> !embs_of(*self).contains_key(chunk_id as int),
    {
        self.conn.query_row(
            "SELECT model, vector, dimension FROM embeddings WHERE chunk_id = ?1",
            (chunk_id,),
            |row| Ok((row.get(0)?, row.get(1)?, row.get(2)?)),
        ).optional().map_err(|e| VectDbError::Database(e.to_string()))
    }

    /// Fetch the embedding of one chunk, decoding the stored bytes; the
    /// dimension is taken from the stored column when it is in range,
    /// and from the decoded vector otherwise.
    pub fn get_embedding(&self, chunk_id: i64) -> (r: Result<Option<Embedding>, VectDbError>)
        ensures
            r matches Ok(Some(e)) ==> embs_of(*self).contains_key(chunk_id as int) && ({
                let row = embs_of(*self)[chunk_id as int];
                e.chunk_id == chunk_id && e.model@ == row.0 && e.vector@ == spec_decode(row.1) && (
                0 <= row.2 <= usize::MAX ==> e.dimension as int == row.2)
            }),
            r matches Ok(None) ==> !embs_of(*self).contains_key(chunk_id as int),
    {
        match self.get_embedding_row(chunk_id)? {
            None => Ok(None),
            Some((model, bytes, dimension)) => {
                let vector = bytes_to_vector(&bytes);
                let dim: usize = if dimension >= 0 && dimension as u128 <= usize::MAX as u128 {
                    dimension as usize
                } else {
                    vector.len()
                };
                Ok(Some(Embedding { chunk_id, model, vector, dimension: dim }))
            },
        }
    }

    /// Relies on `rusqlite::Connection::query_row` running a fixed
    /// `SELECT COUNT(*) FROM embeddings`.
    #[verifier::external_body]
    pub fn count_embeddings(&self) -> (r: Result<i64, VectDbError>)
        requires
            embs_of(*self).dom().finite(),
        ensures
            r matches Ok(n) ==> n as int == embs_of(*self).dom().len(),
    {
        self.conn.query_row("SELECT COUNT(*) FROM embeddings", (), |row| row.get(0)).map_err(|e| VectDbError::Database(e.to_string()))
    }

    /// Relies on `rusqlite::Statement::query_map` running the fixed
    /// three-table join `WHERE e.model = ?`: every embedding stored for
    /// the model whose chunk and document rows exist, each exactly once,
    /// with its chunk's and document's stored fields.
    #[verifier::external_body]
    fn load_search_rows(&self, model: &str) -> (r: Result<Vec<SearchRow>, VectDbError>)
        ensures
            r matches Ok(rows) ==> spec_join_rows(*self, model@, rows@),
    {
        let db = |e: rusqlite::Error| VectDbError::Database(e.to_string());
        let mut stmt = self.conn.prepare(
            "SELECT c.id, c.document_id, c.chunk_index, c.content, c.token_count, d.source, d.content_hash, d.created_at, e.vector, e.dimension FROM embeddings e JOIN chunks c ON e.chunk_id = c.id JOIN documents d ON c.document_id = d.id WHERE e.model = ?1",
        ).map_err(db)?;
        let rows = stmt.query_map((model,), |row| {
            Ok(SearchRow {
                chunk_id: row.get(0)?, document_id: row.get(1)?, chunk_index: row.get(2)?,
                content: row.get(3)?, token_count: row.get(4)?, source: row.get(5)?,
                content_hash: row.get(6)?, created_at: row.get(7)?,
                vector_bytes: row.get(8)?, dimension: row.get(9)?,
            })
        }).map_err(db)?;
        rows.collect::<Result<Vec<_>, _>>().map_err(db)
    }


    /// The similarity scan's candidates: every embedding stored for the
    /// model whose chunk and document rows exist, each exactly once with
    /// its chunk's and document's stored fields, paired with its vector
    /// decoded from the stored bytes.
    pub fn search_candidates(&self, model: &str) -> (r: Result<
        (Vec<SearchRow>, Vec<Vec<u32>>),
        VectDbError,
    >)
        ensures
            r matches Ok(p) ==> spec_join_rows(*self, model@, p.0@) && p.1@.len() == p.0@.len()
                && forall|i: int|
                0 <= i < p.0@.len() ==> (#[trigger] p.1@[i])@ == spec_decode(
                    p.0@[i].vector_bytes@,
                ),
    {
        let rows = match self.load_search_rows(model) {
            Ok(rows) => rows,
            Err(e) => {
                return Err(e);
            },
        };
        let mut vectors: Vec<Vec<u32>> = Vec::new();
        let mut i: usize = 0;
        while i < rows.len()
            invariant
                i <= rows@.len(),
                vectors@.len() == i,
                forall|t: int|
                    0 <= t < i ==> (#[trigger] vectors@[t])@ == spec_decode(
                        rows@[t].vector_bytes@,
                    ),
            decreases rows@.len() - i,
        {
            let v = bytes_to_vector(&rows[i].vector_bytes);
            vectors.push(v);
            i = i + 1;
        }
        Ok((rows, vectors))
    }

    /// Relies on `rusqlite::Connection::execute` running `VACUUM`, which
    /// reclaims space and leaves the logical contents as they were.
    #[verifier::external_body]
    pub fn vacuum(&self) -> Result<(), VectDbError> {
        self.conn.execute("VACUUM", ()).map_err(|e| VectDbError::Database(e.to_string()))?;
        Ok(())
    }

    /// Relies on `rusqlite::Connection::execute` running `ANALYZE`,
    /// which refreshes planner statistics and leaves the logical
    /// contents as they were.
    #[verifier::external_body]
    pub fn analyze(&self) -> Result<(), VectDbError> {
        self.conn.execute("ANALYZE", ()).map_err(|e| VectDbError::Database(e.to_string()))?;
        Ok(())
    }

    /// Relies on `rusqlite::Connection::query_row` reading
    /// `PRAGMA page_count`: the page count is never negative.
    #[verifier::external_body]
    fn page_count(&self) -> (r: Result<i64, VectDbError>)
        ensures
            r matches Ok(n) ==> n >= 0,
    {
        self.conn.query_row("PRAGMA page_count", (), |row| row.get(0)).map_err(|e| VectDbError::Database(e.to_string()))
    }

    /// Relies on `rusqlite::Connection::query_row` reading
    /// `PRAGMA page_size`: SQLite page sizes lie between 512 and 65536
    /// bytes.
    #[verifier::external_body]
    fn page_size(&self) -> (r: Result<i64, VectDbError>)
        ensures
            r matches Ok(n) ==> 512 <= n <= 65536,
    {
        self.conn.query_row("PRAGMA page_size", (), |row| row.get(0)).map_err(|e| VectDbError::Database(e.to_string()))
    }

    /// A statistics snapshot: the three row counts and the database size
    /// in bytes (pages times page size, saturating on overflow).
    pub fn get_stats(&self) -> (r: Result<DatabaseStats, VectDbError>)
        requires
            tables_finite(*self),
        ensures
            r matches Ok(st) ==> st.document_count as int == docs_of(*self).dom().len()
                && st.chunk_count as int == chunks_of(*self).dom().len() && st.embedding_count as int
                == embs_of(*self).dom().len() && st.db_size_bytes >= 0,
    {
        let document_count = self.count_documents()?;
        let chunk_count = self.count_chunks()?;
        let embedding_count = self.count_embeddings()?;
        let pages = self.page_count()?;
        let page_size = self.page_size()?;
        let db_size_bytes: i64 = if pages <= i64::MAX / page_size {
            proof {
                assert(pages * page_size <= 0x7fff_ffff_ffff_ffff && pages * page_size >= 0)
                    by (nonlinear_arith)
                    requires
                        0 <= pages,
                        pages <= 0x7fff_ffff_ffff_ffff as int / (page_size as int),
                        512 <= page_size <= 65536,
                ;
            }
            pages * page_size
        } else {
            i64::MAX
        };
        Ok(DatabaseStats { document_count, chunk_count, embedding_count, db_size_bytes })
    }
}

} // verus!
