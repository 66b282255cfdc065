//! A self-contained model of the JSON values this crate inspects.
//!
//! Provider responses arrive as JSON text. The crawl logic only ever reads
//! booleans, strings, arrays and objects out of them, so the `Json` type keeps
//! exactly that structure as plain values, and every field access the drivers
//! perform is an ordinary, verified function over it. Numeric payloads are
//! never read by any driver, so a number is kept only as a marker variant.
use vstd::prelude::*;

use crate::text::views_of;
use crate::CrawlError;

verus! {

/// A decoded JSON document.
pub enum Json {
    Null,
    Bool(bool),
    Num,
    Str(String),
    Arr(Vec<Json>),
    Obj(Vec<(String, Json)>),
}

/// The value bound to `key` in an object's field list: the first binding wins.
pub open spec fn obj_get_spec(fields: Seq<(String, Json)>, key: Seq<char>) -> Option<Json>
    decreases fields.len(),
{
    if fields.len() == 0 {
        None
    } else if fields[0].0@ == key {
        Some(fields[0].1)
    } else {
        obj_get_spec(fields.drop_first(), key)
    }
}

/// Field lookup on any JSON value: only objects have fields.
pub open spec fn field_of(j: Json, key: Seq<char>) -> Option<Json> {
    match j {
        Json::Obj(fields) => obj_get_spec(fields@, key),
        _ => None,
    }
}

/// Total field lookup, with `Null` standing in for a missing field, the way
/// indexing a decoded JSON value behaves in the original wire-format readers.
pub open spec fn index_of(j: Json, key: Seq<char>) -> Json {
    match field_of(j, key) {
        Some(v) => v,
        None => Json::Null,
    }
}

/// The string bound to `key`, if the field exists and is a string.
pub open spec fn str_field_of(j: Json, key: Seq<char>) -> Option<Seq<char>> {
    match field_of(j, key) {
        Some(Json::Str(s)) => Some(s@),
        _ => None,
    }
}

impl Json {
    /// Look up `key` in this value, returning the bound value of an object
    /// field, and `None` on a missing field or a non-object.
    pub fn get_field<'a>(&'a self, key: &str) -> (r: Option<&'a Json>)
        ensures
            match r {
                Some(v) => field_of(*self, key@) == Some(*v),
                None => field_of(*self, key@) is None,
            },
    {
        match self {
            Json::Obj(fields) => {
                let key_owned: String = key.to_owned();
                let n = fields.len();
                proof {
                    assert(fields@.skip(0) =~= fields@);
                }
                for i in 0..n
                    invariant
                        n == fields@.len(),
                        key_owned@ == key@,
                        field_of(*self, key@) == obj_get_spec(fields@, key@),
                        obj_get_spec(fields@, key@) == obj_get_spec(fields@.skip(i as int), key@),
                {
                    proof {
                        assert(fields@.skip(i as int)[0] == fields@[i as int]);
                    }
                    if fields[i].0 == key_owned {
                        proof {
                            let fs = fields@.skip(i as int);
                            assert(fs[0].0@ == key@);
                            assert(obj_get_spec(fs, key@) == Some(fs[0].1));
                        }
                        return Some(&fields[i].1);
                    }
                    proof {
                        let fs = fields@.skip(i as int);
                        assert(fs[0].0@ != key@);
                        assert(obj_get_spec(fs, key@) == obj_get_spec(fs.drop_first(), key@));
                        assert(fs.drop_first() =~= fields@.skip(i as int + 1));
                    }
                }
                proof {
                    assert(fields@.skip(n as int).len() == 0);
                }
                None
            },
            _ => None,
        }
    }
}

/// The string field `key` of every array item, in response order: `None`
/// when some item lacks a string `key`.
pub open spec fn urls_of_items(items: Seq<Json>, key: Seq<char>) -> Option<Seq<Seq<char>>>
    decreases items.len(),
{
    if items.len() == 0 {
        Some(Seq::empty())
    } else {
        match (urls_of_items(items.drop_last(), key), str_field_of(items.last(), key)) {
            (Some(rest), Some(u)) => Some(rest.push(u)),
            _ => None,
        }
    }
}

/// The repository URLs of one page: the value must be an array, and every
/// item must carry the string field `key`.
pub open spec fn url_list_of(j: Json, key: Seq<char>) -> Option<Seq<Seq<char>>> {
    match j {
        Json::Arr(items) => urls_of_items(items@, key),
        _ => None,
    }
}

/// One bad item spoils the whole page.
pub proof fn lemma_urls_of_items_none(items: Seq<Json>, key: Seq<char>, k: int)
    requires
        0 <= k < items.len(),
        str_field_of(items[k], key) is None,
    ensures
        urls_of_items(items, key) is None,
    decreases items.len(),
{
    if k < items.len() - 1 {
        assert(items.drop_last()[k] == items[k]);
        lemma_urls_of_items_none(items.drop_last(), key, k);
    }
}

/// Reads the string field `key` out of every item of a JSON array, strictly:
/// a non-array value or a single item without a string `key` rejects the
/// whole page.
pub fn extract_url_list(j: &Json, key: &str) -> (r: Result<Vec<String>, CrawlError>)
    ensures
        match r {
            Ok(urls) => url_list_of(*j, key@) == Some(views_of(urls@)),
            Err(e) => url_list_of(*j, key@) is None && e == CrawlError::Parse,
        },
{
    match j {
        Json::Arr(items) => {
            let mut out: Vec<String> = Vec::new();
            let n = items.len();
            proof {
                assert(views_of(out@).len() == 0);
            }
            for i in 0..n
                invariant
                    n == items@.len(),
                    url_list_of(*j, key@) == urls_of_items(items@, key@),
                    urls_of_items(items@.take(i as int), key@) == Some(views_of(out@)),
            {
                let item = &items[i];
                match item.get_field(key) {
                    Some(Json::Str(u)) => {
                        let ghost prev = views_of(out@);
                        out.push(u.clone());
                        proof {
                            let cur = items@.take(i + 1);
                            assert(cur.drop_last() =~= items@.take(i as int));
                            assert(cur.last() == items@[i as int]);
                            assert(str_field_of(items@[i as int], key@) == Some(u@));
                            assert(views_of(out@) =~= prev.push(u@));
                        }
                    },
                    _ => {
                        proof {
                            assert(str_field_of(items@[i as int], key@) is None);
                            lemma_urls_of_items_none(items@, key@, i as int);
                        }
                        return Err(CrawlError::Parse);
                    },
                }
            }
            proof {
                assert(items@.take(n as int) =~= items@);
            }
            Ok(out)
        },
        _ => Err(CrawlError::Parse),
    }
}

} // verus!


