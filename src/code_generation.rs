use vstd::prelude::*;

verus! {

/// The kind of output a module generates.
#[derive(Clone, Copy, Debug, PartialEq, Eq, Structural)]
pub enum SourceType {
    JavaScript,
    Css,
    Wasm,
    Asset,
}

/// The generated fragment of one module, for one runtime and one output kind,
/// with the digest of that fragment.
#[derive(Clone, Debug, PartialEq, Eq)]
pub struct CodeGenerationEntry {
    pub module: u64,
    pub runtime: u64,
    pub source_type: SourceType,
    pub source: String,
    pub hash: Vec<u8>,
}

impl CodeGenerationEntry {
    pub open spec fn has_key(&self, module: u64, runtime: u64, source_type: SourceType) -> bool {
        self.module == module && self.runtime == runtime && self.source_type == source_type
    }
}

/// Generated fragments keyed by (module, runtime, output kind), at most one
/// for each key.
pub struct CodeGenerationResults {
    entries: Vec<CodeGenerationEntry>,
}

impl View for CodeGenerationResults {
    type V = Seq<CodeGenerationEntry>;

    closed spec fn view(&self) -> Seq<CodeGenerationEntry> {
        self.entries@
    }
}

impl CodeGenerationResults {
    /// No key is held twice.
    pub open spec fn wf(&self) -> bool {
        forall|i: int, j: int|
            0 <= i < self@.len() && 0 <= j < self@.len() && #[trigger] self@[i].has_key(
                self@[j].module,
                self@[j].runtime,
                self@[j].source_type,
            ) ==> i == j
    }

    pub open spec fn contains(&self, module: u64, runtime: u64, source_type: SourceType) -> bool {
        exists|i: int| 0 <= i < self@.len() && #[trigger] self@[i].has_key(module, runtime, source_type)
    }

    /// The entry held for a key, if any.
    pub open spec fn find(&self, module: u64, runtime: u64, source_type: SourceType) -> Option<
        CodeGenerationEntry,
    > {
        if self.contains(module, runtime, source_type) {
            Some(
                self@[choose|i: int|
                    0 <= i < self@.len() && #[trigger] self@[i].has_key(
                        module,
                        runtime,
                        source_type,
                    )],
            )
        } else {
            None
        }
    }

    pub fn new() -> (r: CodeGenerationResults)
        ensures
            r.wf(),
            forall|m: u64, rt: u64, k: SourceType| !#[trigger] r.contains(m, rt, k),
            forall|m: u64, rt: u64, k: SourceType| #[trigger] r.find(m, rt, k) is None,
    {
        CodeGenerationResults { entries: Vec::new() }
    }

    fn position(&self, module: u64, runtime: u64, source_type: SourceType) -> (r: Option<usize>)
        ensures
            match r {
                Some(i) => i < self@.len() && self@[i as int].has_key(module, runtime, source_type),
                None => !self.contains(module, runtime, source_type),
            },
    {
        let mut i: usize = 0;
        while i < self.entries.len()
            invariant
                i <= self@.len(),
                self@ == self.entries@,
                forall|j: int| 0 <= j < i ==> !(#[trigger] self@[j].has_key(module, runtime, source_type)),
            decreases self.entries.len() - i,
        {
            let e = &self.entries[i];
            if e.module == module && e.runtime == runtime && e.source_type == source_type {
                return Some(i);
            }
            i += 1;
        }
        None
    }

    /// Stores `entry` unless its key is already held; returns whether it was
    /// stored.
    pub fn insert(&mut self, entry: CodeGenerationEntry) -> (added: bool)
        requires
            old(self).wf(),
        ensures
            final(self).wf(),
            added == !old(self).contains(entry.module, entry.runtime, entry.source_type),
            forall|m: u64, rt: u64, k: SourceType| #[trigger]
                final(self).contains(m, rt, k) == (old(self).contains(m, rt, k) || entry.has_key(
                    m,
                    rt,
                    k,
                )),
            forall|m: u64, rt: u64, k: SourceType| #[trigger]
                final(self).find(m, rt, k) == if added && entry.has_key(m, rt, k) {
                    Some(entry)
                } else {
                    old(self).find(m, rt, k)
                },
    {
        match self.position(entry.module, entry.runtime, entry.source_type) {
            Some(i) => {
                assert forall|m: u64, rt: u64, k: SourceType| #[trigger]
                    self.contains(m, rt, k) == (old(self).contains(m, rt, k) || entry.has_key(
                        m,
                        rt,
                        k,
                    )) by {
                    if entry.has_key(m, rt, k) {
                        assert(self@[i as int].has_key(m, rt, k));
                    }
                }
                false
            },
            None => {
                let ghost e = entry;
                let ghost before = self@;
                self.entries.push(entry);
                assert(self@ == before.push(e));
                assert forall|i: int, j: int|
                    0 <= i < self@.len() && 0 <= j < self@.len() && #[trigger] self@[i].has_key(
                        self@[j].module,
                        self@[j].runtime,
                        self@[j].source_type,
                    ) implies i == j by {
                    if i < before.len() && j == before.len() {
                        assert(before[i].has_key(e.module, e.runtime, e.source_type));
                    } else if j < before.len() && i == before.len() {
                        assert(before[j].has_key(e.module, e.runtime, e.source_type));
                    }
                }
                assert forall|m: u64, rt: u64, k: SourceType| #[trigger]
                    self.find(m, rt, k) == if e.has_key(m, rt, k) {
                        Some(e)
                    } else {
                        old(self).find(m, rt, k)
                    } by {
                    if e.has_key(m, rt, k) {
                        assert(self@[before.len() as int].has_key(m, rt, k));
                        assert(self.contains(m, rt, k));
                    } else if old(self).contains(m, rt, k) {
                        let i = choose|i: int|
                            0 <= i < before.len() && #[trigger] before[i].has_key(m, rt, k);
                        assert(self@[i].has_key(m, rt, k));
                        assert(self.contains(m, rt, k));
                    } else {
                        assert forall|i: int| 0 <= i < self@.len() implies !(
                        #[trigger] self@[i].has_key(m, rt, k)) by {
                            if i < before.len() {
                                assert(!before[i].has_key(m, rt, k));
                            }
                        }
                    }
                }
                assert forall|m: u64, rt: u64, k: SourceType| #[trigger]
                    self.contains(m, rt, k) == (old(self).contains(m, rt, k) || e.has_key(
                        m,
                        rt,
                        k,
                    )) by {
                    assert(self.find(m, rt, k) is Some == self.contains(m, rt, k));
                    assert(old(self).find(m, rt, k) is Some == old(self).contains(m, rt, k));
                }
                true
            },
        }
    }

    /// The entry held for a key, if any.
    pub fn get(&self, module: u64, runtime: u64, source_type: SourceType) -> (r: Option<
        &CodeGenerationEntry,
    >)
        requires
            self.wf(),
        ensures
            match r {
                Some(e) => self.find(module, runtime, source_type) == Some(*e),
                None => self.find(module, runtime, source_type) is None,
            },
    {
        match self.position(module, runtime, source_type) {
            Some(i) => Some(&self.entries[i]),
            None => None,
        }
    }
}

} // verus!
