//! Extensions and the registry of callables.
//!
//! An extension bundles JavaScript files with ops: host callables under names
//! that JavaScript can call. It keeps its ops in the order in which they
//! were put in, so that they are declared in that order. When a runtime is
//! made, the ops of all its extensions are gathered into one registry, a hash
//! map by name; where a name occurs twice, the later entry wins. The callable
//! itself is of any type `C`: the registry hands it out, and never looks
//! into it.

use vstd::hash_map::StringHashMap;
use vstd::prelude::*;

verus! {

/// A JavaScript file that is run when the runtime starts.
#[derive(Clone, Debug, PartialEq, Eq)]
pub struct JsFile {
    pub filename: String,
    pub code: String,
}

impl JsFile {
    pub fn new(filename: String, code: String) -> (file: JsFile)
        ensures
            file.filename == filename,
            file.code == code,
    {
        JsFile { filename, code }
    }
}

/// The declaration of one op, as the engine takes it.
#[derive(Clone, Debug, PartialEq, Eq)]
pub struct OpDecl {
    pub name: String,
    pub enabled: bool,
    pub is_async: bool,
    pub is_unstable: bool,
    pub is_v8: bool,
}

/// What the engine is given of an extension: its files, and the declarations
/// of its ops.
#[derive(Clone, Debug, PartialEq, Eq)]
pub struct ExtensionDecl {
    pub js_files: Vec<JsFile>,
    pub ops: Vec<OpDecl>,
}

/// Whether `decl` declares the op `name` as the runtime declares every op:
/// enabled, synchronous, stable, and called with marshalled values.
pub open spec fn declares(decl: OpDecl, name: Seq<char>) -> bool {
    &&& decl.name@ == name
    &&& decl.enabled
    &&& !decl.is_async
    &&& !decl.is_unstable
    &&& !decl.is_v8
}

/// The mapping that a sequence of named callables stands for: each name
/// goes to the callable of its last entry.
pub open spec fn ops_map<C>(ops: Seq<(String, C)>) -> Map<Seq<char>, C>
    decreases ops.len(),
{
    if ops.len() == 0 {
        Map::empty()
    } else {
        ops_map(ops.drop_last()).insert(ops.last().0@, ops.last().1)
    }
}

/// Whether no name occurs twice.
pub open spec fn distinct_names<C>(ops: Seq<(String, C)>) -> bool {
    forall|i: int, j: int|
        0 <= i < j < ops.len() ==> (#[trigger] ops[i]).0@ != (#[trigger] ops[j]).0@
}

/// A name that occurs in the sequence is in the mapping.
pub proof fn lemma_ops_map_contains<C>(ops: Seq<(String, C)>, i: int)
    requires
        0 <= i < ops.len(),
    ensures
        ops_map(ops).contains_key(ops[i].0@),
    decreases ops.len(),
{
    if i < ops.len() - 1 {
        lemma_ops_map_contains(ops.drop_last(), i);
    }
}

/// The callable of the last entry with this name, if there is one.
pub open spec fn last_named<C>(ops: Seq<(String, C)>, name: Seq<char>) -> Option<C>
    decreases ops.len(),
{
    if ops.len() == 0 {
        None
    } else if ops.last().0@ == name {
        Some(ops.last().1)
    } else {
        last_named(ops.drop_last(), name)
    }
}

/// The mapping holds a name exactly where some entry has it, and then with
/// the callable of the last such entry.
pub proof fn lemma_ops_map_last<C>(ops: Seq<(String, C)>, name: Seq<char>)
    ensures
        ops_map(ops).contains_key(name) <==> last_named(ops, name) is Some,
        last_named(ops, name) matches Some(c) ==> ops_map(ops)[name] == c,
    decreases ops.len(),
{
    if ops.len() > 0 {
        lemma_ops_map_last(ops.drop_last(), name);
    }
}

/// The position of the first entry with this name; the length of the
/// sequence where no entry has it.
pub open spec fn position_of<C>(ops: Seq<(String, C)>, name: Seq<char>) -> int
    decreases ops.len(),
{
    if ops.len() == 0 {
        0
    } else if ops.first().0@ == name {
        0
    } else {
        1 + position_of(ops.drop_first(), name)
    }
}

/// The position of a name is where the name stands and none of the entries
/// before has it.
pub proof fn lemma_position_of<C>(ops: Seq<(String, C)>, name: Seq<char>, i: int)
    requires
        0 <= i <= ops.len(),
        forall|j: int| 0 <= j < i ==> (#[trigger] ops[j]).0@ != name,
        i < ops.len() ==> ops[i].0@ == name,
    ensures
        position_of(ops, name) == i,
    decreases i,
{
    if i > 0 {
        let rest = ops.drop_first();
        assert(ops[0].0@ != name);
        assert forall|j: int| 0 <= j < i - 1 implies (#[trigger] rest[j]).0@ != name by {
            assert(ops[j + 1].0@ != name);
        }
        lemma_position_of(rest, name, i - 1);
    }
}

/// A bundle of JavaScript files and ops. No op name occurs twice in an
/// extension that is built with `new` and `insert_op`.
pub struct Extension<C> {
    pub js_files: Vec<JsFile>,
    pub ops: Vec<(String, C)>,
}

impl<C> Extension<C> {
    /// Whether no op name occurs twice.
    pub open spec fn wf(self) -> bool {
        distinct_names(self.ops@)
    }

    /// An extension without files and without ops.
    pub fn new() -> (extension: Extension<C>)
        ensures
            extension.wf(),
            extension.js_files@.len() == 0,
            extension.ops@.len() == 0,
    {
        Extension { js_files: Vec::new(), ops: Vec::new() }
    }

    /// Adds a file after the files that are there.
    pub fn push_js_file(&mut self, file: JsFile)
        ensures
            final(self).js_files@ == old(self).js_files@.push(file),
            final(self).ops == old(self).ops,
    {
        self.js_files.push(file);
    }

    /// Puts an op under a name. Where the name is taken, the callable takes
    /// the place of the one that was there; else the op is added at the end.
    pub fn insert_op(&mut self, name: String, callable: C)
        ensures
            final(self).js_files == old(self).js_files,
            old(self).wf() ==> final(self).wf(),
            old(self).wf() ==> ops_map(final(self).ops@) == ops_map(old(self).ops@).insert(
                name@,
                callable,
            ),
            final(self).ops@ == if position_of(old(self).ops@, name@) < old(self).ops@.len() {
                old(self).ops@.update(position_of(old(self).ops@, name@), (name, callable))
            } else {
                old(self).ops@.push((name, callable))
            },
    {
        let mut i: usize = 0;
        let mut found = false;
        while i < self.ops.len() && !found
            invariant
                i <= self.ops.len(),
                *self == *old(self),
                forall|j: int| 0 <= j < i ==> (#[trigger] self.ops@[j]).0@ != name@,
                found ==> i < self.ops.len() && self.ops@[i as int].0@ == name@,
            decreases self.ops.len() - i + (if found { 0int } else { 1int }),
        {
            if self.ops[i].0 == name {
                found = true;
            } else {
                i = i + 1;
            }
        }
        proof {
            lemma_position_of(self.ops@, name@, i as int);
        }
        if found {
            let ghost before = self.ops@;
            self.ops.set(i, (name, callable));
            proof {
                if old(self).wf() {
                    lemma_ops_map_set(before, i as int, name, callable);
                }
            }
        } else {
            self.ops.push((name, callable));
            proof {
                assert(self.ops@.drop_last() =~= old(self).ops@);
                assert forall|a: int, b: int|
                    old(self).wf() && 0 <= a < b < self.ops@.len() implies (#[trigger] self.ops@[a]).0@
                    != (#[trigger] self.ops@[b]).0@ by {
                    if b < old(self).ops@.len() {
                        assert(old(self).ops@[a].0@ != old(self).ops@[b].0@);
                    } else {
                        assert(old(self).ops@[a].0@ != name@);
                    }
                }
            }
        }
    }

    /// Whether `decl` is what the engine is given of this extension: the
    /// files as they are, and one declaration for each op, in their order.
    pub open spec fn declared_by(self, decl: ExtensionDecl) -> bool {
        &&& decl.js_files@.len() == self.js_files@.len()
        &&& forall|i: int|
            0 <= i < decl.js_files@.len() ==> (#[trigger] decl.js_files@[i]).filename@
                == self.js_files@[i].filename@ && decl.js_files@[i].code@ == self.js_files@[i].code@
        &&& decl.ops@.len() == self.ops@.len()
        &&& forall|i: int|
            0 <= i < decl.ops@.len() ==> declares(#[trigger] decl.ops@[i], self.ops@[i].0@)
    }

    /// What the engine is given of this extension.
    pub fn decl(&self) -> (decl: ExtensionDecl)
        ensures
            self.declared_by(decl),
    {
        let mut js_files: Vec<JsFile> = Vec::new();
        let mut k: usize = 0;
        while k < self.js_files.len()
            invariant
                k <= self.js_files.len(),
                js_files@.len() == k,
                forall|j: int|
                    0 <= j < k ==> (#[trigger] js_files@[j]).filename@ == self.js_files@[j].filename@
                        && js_files@[j].code@ == self.js_files@[j].code@,
            decreases self.js_files.len() - k,
        {
            js_files.push(
                JsFile {
                    filename: self.js_files[k].filename.clone(),
                    code: self.js_files[k].code.clone(),
                },
            );
            k = k + 1;
        }
        let mut ops: Vec<OpDecl> = Vec::new();
        let mut i: usize = 0;
        while i < self.ops.len()
            invariant
                i <= self.ops.len(),
                ops@.len() == i,
                forall|j: int| 0 <= j < i ==> declares(#[trigger] ops@[j], self.ops@[j].0@),
            decreases self.ops.len() - i,
        {
            ops.push(
                OpDecl {
                    name: self.ops[i].0.clone(),
                    enabled: true,
                    is_async: false,
                    is_unstable: false,
                    is_v8: false,
                },
            );
            i = i + 1;
        }
        ExtensionDecl { js_files, ops }
    }
}

/// Whether `decls` holds what the engine is given of each extension, in
/// their order.
pub open spec fn declared_all<C>(extensions: Seq<Extension<C>>, decls: Seq<ExtensionDecl>) -> bool {
    &&& decls.len() == extensions.len()
    &&& forall|i: int|
        0 <= i < extensions.len() ==> (#[trigger] extensions[i]).declared_by(decls[i])
}

/// What the engine is given of each extension, in their order.
pub fn declarations<C>(extensions: &Vec<Extension<C>>) -> (decls: Vec<ExtensionDecl>)
    ensures
        declared_all(extensions@, decls@),
{
    let mut decls: Vec<ExtensionDecl> = Vec::new();
    let mut i: usize = 0;
    while i < extensions.len()
        invariant
            i <= extensions.len(),
            decls@.len() == i,
            forall|j: int| 0 <= j < i ==> (#[trigger] extensions@[j]).declared_by(decls@[j]),
        decreases extensions.len() - i,
    {
        decls.push(extensions[i].decl());
        i = i + 1;
    }
    decls
}

/// Where no name occurs twice, replacing the callable of an entry leaves
/// the names distinct, and changes the mapping as an insertion under the
/// entry's name does.
pub proof fn lemma_ops_map_set<C>(ops: Seq<(String, C)>, i: int, name: String, callable: C)
    requires
        0 <= i < ops.len(),
        ops[i].0@ == name@,
        distinct_names(ops),
    ensures
        distinct_names(ops.update(i, (name, callable))),
        ops_map(ops.update(i, (name, callable))) == ops_map(ops).insert(name@, callable),
    decreases ops.len(),
{
    let updated = ops.update(i, (name, callable));
    assert forall|a: int, b: int| 0 <= a < b < updated.len() implies (#[trigger] updated[a]).0@
        != (#[trigger] updated[b]).0@ by {
        assert(ops[a].0@ != ops[b].0@);
    }
    if i == ops.len() - 1 {
        assert(updated.drop_last() =~= ops.drop_last());
        assert(ops_map(updated) =~= ops_map(ops).insert(name@, callable));
    } else {
        let front = ops.drop_last();
        assert(updated.drop_last() =~= front.update(i, (name, callable)));
        assert forall|a: int, b: int| 0 <= a < b < front.len() implies (#[trigger] front[a]).0@
            != (#[trigger] front[b]).0@ by {
            assert(ops[a].0@ != ops[b].0@);
        }
        lemma_ops_map_set(front, i, name, callable);
        assert(ops[i].0@ != ops[ops.len() - 1].0@);
        assert(updated.last() == ops.last());
        assert(ops_map(updated) =~= ops_map(ops).insert(name@, callable));
    }
}

/// The callables of a runtime, by the names of their ops.
#[verifier::reject_recursive_types(C)]
pub struct CallableRegistry<C> {
    pub entries: StringHashMap<C>,
}

impl<C> View for CallableRegistry<C> {
    type V = Map<Seq<char>, C>;

    open spec fn view(&self) -> Map<Seq<char>, C> {
        self.entries@
    }
}

/// The ops of a sequence of extensions, one after the other.
pub open spec fn all_ops<C>(extensions: Seq<Extension<C>>) -> Seq<(String, C)>
    decreases extensions.len(),
{
    if extensions.len() == 0 {
        Seq::empty()
    } else {
        extensions.first().ops@ + all_ops(extensions.drop_first())
    }
}

impl<C> CallableRegistry<C> {
    /// The registry of a runtime with these extensions: it holds the ops of
    /// all of them, a later entry overwriting an earlier one of the same
    /// name.
    pub fn new(extensions: Vec<Extension<C>>) -> (registry: CallableRegistry<C>)
        ensures
            registry@ == ops_map(all_ops(extensions@)),
    {
        let mut extensions = extensions;
        let mut entries: StringHashMap<C> = StringHashMap::new();
        let ghost all = extensions@;
        let ghost mut done: Seq<(String, C)> = Seq::empty();
        while extensions.len() > 0
            invariant
                entries@ == ops_map(done),
                done + all_ops(extensions@) == all_ops(all),
            decreases extensions.len(),
        {
            let ghost before = extensions@;
            let mut extension = extensions.remove(0);
            proof {
                assert(extensions@ =~= before.drop_first());
            }
            while extension.ops.len() > 0
                invariant
                    entries@ == ops_map(done),
                    done + (extension.ops@ + all_ops(extensions@)) == all_ops(all),
                decreases extension.ops.len(),
            {
                let ghost rest = extension.ops@;
                let op = extension.ops.remove(0);
                proof {
                    assert(done.push(op).drop_last() =~= done);
                    assert(done.push(op) + (extension.ops@ + all_ops(extensions@)) =~= done + (rest
                        + all_ops(extensions@)));
                    done = done.push(op);
                }
                entries.insert(op.0, op.1);
            }
            proof {
                assert(extension.ops@ + all_ops(extensions@) =~= all_ops(extensions@));
            }
        }
        proof {
            assert(done + Seq::<(String, C)>::empty() =~= done);
        }
        CallableRegistry { entries }
    }

    /// The callable of the op with this name, if the registry holds one.
    pub fn get(&self, name: &str) -> (callable: Option<&C>)
        ensures
            callable is Some <==> self@.contains_key(name@),
            callable matches Some(c) ==> *c == self@[name@],
    {
        self.entries.get(name)
    }
}

/// The mapping of one sequence after another is the union of their
/// mappings, the later winning where both hold a name.
pub proof fn lemma_ops_map_concat<C>(a: Seq<(String, C)>, b: Seq<(String, C)>)
    ensures
        ops_map(a + b) == ops_map(a).union_prefer_right(ops_map(b)),
    decreases b.len(),
{
    if b.len() == 0 {
        assert(a + b =~= a);
        assert(ops_map(a).union_prefer_right(ops_map(b)) =~= ops_map(a));
    } else {
        assert((a + b).drop_last() =~= a + b.drop_last());
        lemma_ops_map_concat(a, b.drop_last());
        assert(ops_map(a + b) =~= ops_map(a).union_prefer_right(ops_map(b)));
    }
}

/// The registry of a runtime is the union of the mappings of its extensions,
/// a later extension winning over an earlier one.
pub proof fn lemma_registry_is_union<C>(extensions: Seq<Extension<C>>)
    requires
        extensions.len() > 0,
    ensures
        ops_map(all_ops(extensions)) == ops_map(extensions.first().ops@).union_prefer_right(
            ops_map(all_ops(extensions.drop_first())),
        ),
{
    lemma_ops_map_concat(extensions.first().ops@, all_ops(extensions.drop_first()));
}

/// Every op of every extension is in the registry that is made of them.
pub proof fn lemma_every_op_registered<C>(extensions: Seq<Extension<C>>, e: int, i: int)
    requires
        0 <= e < extensions.len(),
        0 <= i < extensions[e].ops@.len(),
    ensures
        ops_map(all_ops(extensions)).contains_key(extensions[e].ops@[i].0@),
    decreases extensions.len(),
{
    lemma_all_ops_holds(extensions, e, i);
    let k = choose|k: int|
        0 <= k < all_ops(extensions).len() && all_ops(extensions)[k] == extensions[e].ops@[i];
    lemma_ops_map_contains(all_ops(extensions), k);
}

/// Every op of every extension occurs among the ops of all of them.
pub proof fn lemma_all_ops_holds<C>(extensions: Seq<Extension<C>>, e: int, i: int)
    requires
        0 <= e < extensions.len(),
        0 <= i < extensions[e].ops@.len(),
    ensures
        exists|k: int|
            0 <= k < all_ops(extensions).len() && all_ops(extensions)[k] == extensions[e].ops@[i],
    decreases extensions.len(),
{
    if e == 0 {
        assert(all_ops(extensions)[i] == extensions[e].ops@[i]);
    } else {
        lemma_all_ops_holds(extensions.drop_first(), e - 1, i);
        let k = choose|k: int|
            0 <= k < all_ops(extensions.drop_first()).len() && all_ops(extensions.drop_first())[k]
                == extensions[e].ops@[i];
        assert(all_ops(extensions)[extensions.first().ops@.len() + k] == extensions[e].ops@[i]);
    }
}

} // verus!
