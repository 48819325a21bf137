//! The stand-in database behind `ctx.db`: every lookup answers with one
//! fixed mock user, and every write is assigned the id `1`.
use vstd::prelude::*;

verus! {

/// A document as the stand-in database returns it.
#[derive(Debug)]
pub struct MockDocument {
    pub id: String,
    pub collection: String,
    pub name: String,
    pub email: String,
}

/// The mock user that the stand-in database holds under `id` in `collection`.
pub open spec fn is_mock_user(doc: MockDocument, collection: Seq<char>, id: Seq<char>) -> bool {
    &&& doc.id@ == id
    &&& doc.collection@ == collection
    &&& doc.name@ == "Mock User"@
    &&& doc.email@ == "mock@example.com"@
}

/// The stand-in database answers for the document that was asked for: its
/// id and collection are the requested ones, and every other field is fixed.
pub proof fn lemma_mock_user_echoes_request(
    doc: MockDocument,
    other: MockDocument,
    collection: Seq<char>,
    id: Seq<char>,
)
    requires
        is_mock_user(doc, collection, id),
        is_mock_user(other, collection, id),
    ensures
        doc.id@ == id,
        doc.collection@ == collection,
        doc.name@ == other.name@,
        doc.email@ == other.email@,
{
}

/// The mock user under `id` in `collection`.
fn mock_user(collection: &str, id: &str) -> (res: MockDocument)
    ensures
        is_mock_user(res, collection@, id@),
        res.id@ == id@,
        res.collection@ == collection@,
{
    MockDocument {
        id: id.to_owned(),
        collection: collection.to_owned(),
        name: String::from_str("Mock User"),
        email: String::from_str("mock@example.com"),
    }
}

/// The document that `ctx.db.get(collection, id)` returns.
pub fn get_document(collection: &str, id: &str) -> (res: MockDocument)
    ensures
        is_mock_user(res, collection@, id@),
        res.id@ == id@,
        res.collection@ == collection@,
        res.name@ == "Mock User"@,
        res.email@ == "mock@example.com"@,
{
    mock_user(collection, id)
}

/// The id that `ctx.db.put` assigns to a stored document.
pub fn put_document() -> (res: String)
    ensures
        res@ == "1"@,
{
    String::from_str("1")
}

/// The documents that `ctx.db.query(collection, filter)` returns, whatever
/// the filter: the mock user with id `1`.
pub fn query_documents(collection: &str) -> (res: Vec<MockDocument>)
    ensures
        res@.len() == 1,
        is_mock_user(res@[0], collection@, "1"@),
        res@[0].id@ == "1"@,
        res@[0].collection@ == collection@,
        res@[0].name@ == "Mock User"@,
        res@[0].email@ == "mock@example.com"@,
{
    let mut res: Vec<MockDocument> = Vec::new();
    let id = String::from_str("1");
    res.push(mock_user(collection, id.as_str()));
    res
}

} // verus!
