//! Namespaces and table identifiers: dot-separated paths of non-empty segments.

use vstd::prelude::*;
use vstd::string::*;
use crate::error::IcebergError;

verus! {

/// The segments of `s` between occurrences of `sep`, as `str::split` gives them:
/// the empty text has one empty segment.
pub open spec fn split_on(s: Seq<char>, sep: char) -> Seq<Seq<char>>
    decreases s.len(),
{
    if s.len() == 0 {
        seq![Seq::<char>::empty()]
    } else {
        let r = split_on(s.drop_last(), sep);
        if s.last() == sep {
            r.push(Seq::<char>::empty())
        } else {
            r.update(r.len() - 1, r.last().push(s.last()))
        }
    }
}

/// The segments joined with `sep` between each two.
pub open spec fn join_with(parts: Seq<Seq<char>>, sep: char) -> Seq<char>
    decreases parts.len(),
{
    if parts.len() == 0 {
        Seq::<char>::empty()
    } else if parts.len() == 1 {
        parts[0]
    } else {
        join_with(parts.drop_last(), sep).push(sep) + parts.last()
    }
}

/// Splitting always gives at least one segment.
pub proof fn lemma_split_nonempty(s: Seq<char>, sep: char)
    ensures
        split_on(s, sep).len() >= 1,
    decreases s.len(),
{
    if s.len() > 0 {
        lemma_split_nonempty(s.drop_last(), sep);
    }
}

/// The views of a sequence of strings.
pub open spec fn views(v: Seq<String>) -> Seq<Seq<char>> {
    v.map_values(|x: String| x@)
}

/// Whether every segment is non-empty.
pub open spec fn all_nonempty(v: Seq<Seq<char>>) -> bool {
    forall|i: int| 0 <= i < v.len() ==> #[trigger] v[i].len() > 0
}

/// Namespace of an iceberg catalog: a sequence of non-empty levels.
#[derive(Clone, Debug)]
pub struct Namespace {
    levels: Vec<String>,
}

impl View for Namespace {
    type V = Seq<Seq<char>>;

    closed spec fn view(&self) -> Seq<Seq<char>> {
        views(self.levels@)
    }
}

fn clone_strings(v: &[String]) -> (r: Vec<String>)
    ensures
        views(r@) == views(v@),
        r@.len() == v@.len(),
{
    let mut r: Vec<String> = Vec::new();
    let mut i: usize = 0;
    while i < v.len()
        invariant
            i <= v@.len(),
            r@.len() == i,
            forall|k: int| 0 <= k < i ==> #[trigger] r@[k]@ == v@[k]@,
        decreases v@.len() - i,
    {
        r.push(v[i].clone());
        i = i + 1;
    }
    assert(views(r@) =~= views(v@));
    r
}

impl Namespace {
    /// Create a namespace from its levels: at least one level, and no empty level.
    pub fn try_new(levels: &[String]) -> (r: Result<Namespace, IcebergError>)
        ensures
            r is Ok <==> levels@.len() > 0 && all_nonempty(views(levels@)),
            r is Ok ==> r->Ok_0@ == views(levels@),
            r is Err ==> r->Err_0 is Validation,
    {
        if levels.len() == 0 {
            return Err(IcebergError::Validation(String::from_str("Cannot create a namespace without levels.")));
        }
        let mut i: usize = 0;
        while i < levels.len()
            invariant
                i <= levels@.len(),
                forall|k: int| 0 <= k < i ==> (#[trigger] levels@[k])@.len() > 0,
            decreases levels@.len() - i,
        {
            if levels[i].as_str().unicode_len() == 0 {
                assert(views(levels@)[i as int].len() == 0);
                return Err(IcebergError::Validation(
                    String::from_str("Cannot create a namespace with an empty entry."),
                ));
            }
            i = i + 1;
        }
        Ok(Namespace { levels: clone_strings(levels) })
    }

    /// The catalog root, above every namespace: it has no levels, and no
    /// table identifier holds it.
    pub fn empty() -> (r: Namespace)
        ensures
            r@ == Seq::<Seq<char>>::empty(),
    {
        let r = Namespace { levels: Vec::new() };
        assert(r@ =~= Seq::<Seq<char>>::empty());
        r
    }

    /// The levels of the namespace.
    pub fn levels(&self) -> (r: &[String])
        ensures
            views(r@) == self@,
    {
        self.levels.as_slice()
    }

    /// The number of levels.
    pub fn len(&self) -> (r: usize)
        ensures
            r == self@.len(),
    {
        self.levels.len()
    }

    /// The levels joined by dots.
    pub fn to_string(&self) -> (r: String)
        ensures
            r@ == join_with(self@, '.'),
    {
        join_strings(&self.levels)
    }
}

fn join_strings(v: &Vec<String>) -> (r: String)
    ensures
        r@ == join_with(views(v@), '.'),
{
    let mut r = String::new();
    let mut i: usize = 0;
    while i < v.len()
        invariant
            i <= v@.len(),
            r@ == join_with(views(v@).subrange(0, i as int), '.'),
        decreases v@.len() - i,
    {
        let ghost prev = views(v@).subrange(0, i as int);
        let ghost next = views(v@).subrange(0, i + 1);
        assert(next.drop_last() =~= prev);
        proof { reveal_strlit("."); }
        if i > 0 {
            r.append(".");
        }
        r.append(v[i].as_str());
        proof {
            if i == 0 {
                assert(r@ =~= next[0]);
            } else {
                assert(next.last() == v@[i as int]@);
                assert(join_with(next, '.') == join_with(prev, '.').push('.') + next.last());
                assert(r@ =~= join_with(prev, '.').push('.') + next.last());
            }
        }
        i = i + 1;
    }
    assert(views(v@).subrange(0, v@.len() as int) =~= views(v@));
    r
}

/// Identifies a table in a catalog: a namespace and a non-empty name.
#[derive(Clone, Debug)]
pub struct TableIdentifier {
    namespace: Namespace,
    name: String,
}

impl TableIdentifier {
    /// The identifier as its path of segments: the namespace levels, then the name.
    pub closed spec fn path(&self) -> Seq<Seq<char>> {
        self.namespace@.push(self.name@)
    }

    /// Create an identifier from namespace levels followed by the table name:
    /// at least one level and the name, none of them empty.
    pub fn try_new(names: &[String]) -> (r: Result<TableIdentifier, IcebergError>)
        ensures
            r is Ok <==> names@.len() >= 2 && all_nonempty(views(names@)),
            r is Ok ==> r->Ok_0.path() == views(names@),
            r is Err ==> r->Err_0 is Validation,
    {
        let length = names.len();
        if length < 2 {
            return Err(IcebergError::Validation(
                String::from_str("A table identifier needs a namespace and a name."),
            ));
        }
        if names[length - 1].as_str().unicode_len() == 0 {
            assert(views(names@)[length - 1].len() == 0);
            return Err(IcebergError::Validation(String::from_str("Table name cannot be empty.")));
        }
        let (front, _) = names.split_at(length - 1);
        assert(views(front@) =~= views(names@).drop_last());
        match Namespace::try_new(front) {
            Ok(namespace) => {
                let r = TableIdentifier { namespace, name: names[length - 1].clone() };
                assert(r.path() =~= views(names@));
                Ok(r)
            },
            Err(e) => {
                assert(!all_nonempty(views(names@))) by {
                    let k = choose|k: int|
                        0 <= k < views(front@).len() && #[trigger] views(front@)[k].len() == 0;
                    assert(views(names@)[k] == views(front@)[k]);
                }
                Err(e)
            },
        }
    }

    /// Parse a dot-separated identifier such as `level1.level2.table`: at
    /// least two segments, none of them empty.
    pub fn parse(identifier: &str) -> (r: Result<TableIdentifier, IcebergError>)
        ensures
            r is Ok <==> split_on(identifier@, '.').len() >= 2 && all_nonempty(split_on(identifier@, '.')),
            r is Ok ==> r->Ok_0.path() == split_on(identifier@, '.'),
            r is Err ==> r->Err_0 is Validation,
    {
        let names = split_string(identifier, '.');
        proof {
            lemma_split_nonempty(identifier@, '.');
        }
        TableIdentifier::try_new(names.as_slice())
    }

    /// The namespace of the table.
    pub fn namespace(&self) -> (r: &Namespace)
        ensures
            r@ == self.path().drop_last(),
    {
        assert(self.path().drop_last() =~= self.namespace@);
        &self.namespace
    }

    /// The name of the table.
    pub fn name(&self) -> (r: &str)
        ensures
            r@ == self.path().last(),
    {
        self.name.as_str()
    }

    /// The identifier written with dots between its segments.
    pub fn to_string(&self) -> (r: String)
        ensures
            r@ == join_with(self.path(), '.'),
    {
        let mut r = self.namespace.to_string();
        proof { reveal_strlit("."); }
        if self.namespace.len() > 0 {
            r.append(".");
        }
        r.append(self.name.as_str());
        proof {
            let p = self.path();
            assert(p.drop_last() =~= self.namespace@);
            if self.namespace@.len() == 0 {
                assert(r@ =~= p[0]);
            } else {
                assert(join_with(p, '.') == join_with(p.drop_last(), '.').push('.') + p.last());
                assert(r@ =~= join_with(p.drop_last(), '.').push('.') + p.last());
            }
        }
        r
    }
}

/// Split `s` at each occurrence of `sep`.
pub fn split_string(s: &str, sep: char) -> (r: Vec<String>)
    ensures
        views(r@) == split_on(s@, sep),
{
    let n = s.unicode_len();
    let mut parts: Vec<String> = Vec::new();
    let mut cur = String::new();
    let mut start: usize = 0;
    let mut i: usize = 0;
    while i < n
        invariant
            n == s@.len(),
            start <= i <= n,
            views(parts@).push(cur@) == split_on(s@.subrange(0, i as int), sep),
            cur@ == s@.subrange(start as int, i as int),
        decreases n - i,
    {
        let c = s.get_char(i);
        let ghost pre = s@.subrange(0, i as int);
        let ghost post = s@.subrange(0, i + 1);
        assert(post.drop_last() =~= pre);
        assert(post.last() == c);
        proof { lemma_split_nonempty(pre, sep); }
        if c == sep {
            parts.push(cur);
            cur = String::new();
            start = i + 1;
            assert(views(parts@).push(cur@) =~= split_on(pre, sep).push(Seq::<char>::empty()));
        } else {
            let ghost old_cur = cur@;
            let ghost sp = split_on(pre, sep);
            assert(sp.last() == old_cur);
            let t = s.substring_char(i, i + 1);
            assert(t@ =~= seq![c]);
            cur.append(t);
            assert(cur@ =~= old_cur.push(c));
            assert(views(parts@).push(cur@) =~= split_on(pre, sep).update(
                split_on(pre, sep).len() - 1,
                split_on(pre, sep).last().push(c),
            ));
        }
        i = i + 1;
    }
    assert(s@.subrange(0, n as int) =~= s@);
    parts.push(cur);
    parts
}

} // verus!
