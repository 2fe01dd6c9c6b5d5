use vstd::prelude::*;

use super::error::LogicError;
use super::module_url::ModuleUrl;

verus! {

/// What a module consists of: JavaScript text, or the bytes of a WebAssembly
/// module.
pub enum Code {
    JavaScript(Seq<char>),
    Wasm(Seq<u8>),
}

impl Code {
    /// The language of the code.
    pub open spec fn module_type(self) -> ModuleType {
        match self {
            Code::JavaScript(_) => ModuleType::JavaScript,
            Code::Wasm(_) => ModuleType::Wasm,
        }
    }
}

/// A module of a script.
#[derive(Debug)]
pub enum LogicModule {
    /// The module's JavaScript code, given in full.
    Direct { src: String },
    /// The bytes of a WebAssembly module, given in full.
    Wasm { bytes: Vec<u8> },
}

/// A copy of a module's code.
#[derive(Debug)]
pub enum ModuleCode {
    JavaScript(String),
    Wasm(Vec<u8>),
}

impl View for ModuleCode {
    type V = Code;

    open spec fn view(&self) -> Code {
        match self {
            ModuleCode::JavaScript(text) => Code::JavaScript(text@),
            ModuleCode::Wasm(bytes) => Code::Wasm(bytes@),
        }
    }
}

fn copy_bytes(bytes: &Vec<u8>) -> (copy: Vec<u8>)
    ensures
        copy@ == bytes@,
{
    let copy = bytes.clone();
    assert(copy@ =~= bytes@);
    copy
}

impl LogicModule {
    /// The module's code.
    pub open spec fn code(self) -> Code {
        match self {
            LogicModule::Direct { src } => Code::JavaScript(src@),
            LogicModule::Wasm { bytes } => Code::Wasm(bytes@),
        }
    }

    /// The address under which a runtime serves this module.
    pub fn direct_url(&self) -> (url: ModuleUrl)
        ensures
            url@ == super::module_url::builtin_main(),
            url@ == "builtin://main"@,
    {
        match self {
            LogicModule::Direct { src: _ } => ModuleUrl::builtin_main(),
            LogicModule::Wasm { bytes: _ } => ModuleUrl::builtin_main(),
        }
    }

    /// The module's JavaScript code. A WebAssembly module has none.
    pub fn source(&self) -> (src: Option<&String>)
        ensures
            match self.code() {
                Code::JavaScript(text) => src is Some && src->Some_0@ == text,
                Code::Wasm(_) => src is None,
            },
            *self matches LogicModule::Direct { src: own } ==> src == Some(&own),
            *self is Wasm ==> src is None,
    {
        match self {
            LogicModule::Direct { src } => Some(src),
            LogicModule::Wasm { bytes: _ } => None,
        }
    }

    /// A copy of the module's code. Code given in full never fails to resolve.
    pub fn resolve(&self) -> (res: Result<ModuleCode, LogicError>)
        ensures
            res is Ok,
            res->Ok_0@ == self.code(),
            match *self {
                LogicModule::Direct { src } => res->Ok_0 is JavaScript && res->Ok_0->JavaScript_0@
                    == src@,
                LogicModule::Wasm { bytes } => res->Ok_0 is Wasm && res->Ok_0->Wasm_0@ == bytes@,
            },
    {
        match self {
            LogicModule::Direct { src } => Ok(ModuleCode::JavaScript(src.clone())),
            LogicModule::Wasm { bytes } => Ok(ModuleCode::Wasm(copy_bytes(bytes))),
        }
    }
}

impl Clone for LogicModule {
    fn clone(&self) -> (res: Self)
        ensures
            res.code() == self.code(),
            match *self {
                LogicModule::Direct { src } => res is Direct && res->src@ == src@,
                LogicModule::Wasm { bytes } => res is Wasm && res->bytes@ == bytes@,
            },
    {
        match self {
            LogicModule::Direct { src } => LogicModule::Direct { src: src.clone() },
            LogicModule::Wasm { bytes } => LogicModule::Wasm { bytes: copy_bytes(bytes) },
        }
    }
}

/// The language of a module.
#[derive(Debug, Clone, Copy, PartialEq, Eq, Structural)]
pub enum ModuleType {
    JavaScript,
    Wasm,
}

/// A module that was found: its language, its code and its address.
#[derive(Debug)]
pub struct ModuleSource {
    pub module_type: ModuleType,
    pub code: ModuleCode,
    pub url: ModuleUrl,
}

impl ModuleSource {
    /// Whether this is the module at `url` with the given code, in the language
    /// of that code.
    pub open spec fn is_script(self, url: Seq<char>, code: Code) -> bool {
        &&& self.module_type == code.module_type()
        &&& self.code@ == code
        &&& self.url@ == url
    }

    /// The module with the given code at an address.
    pub fn new(code: ModuleCode, url: &ModuleUrl) -> (source: ModuleSource)
        ensures
            source.is_script(url@, code@),
            source.code == code,
            source.url@ == url@,
            source.module_type == ModuleType::Wasm <==> code is Wasm,
    {
        let module_type = match &code {
            ModuleCode::JavaScript(_) => ModuleType::JavaScript,
            ModuleCode::Wasm(_) => ModuleType::Wasm,
        };
        ModuleSource { module_type, code, url: url.clone() }
    }
}

/// Modules by their address. No address occurs twice.
#[derive(Debug)]
pub struct ModuleTable {
    entries: Vec<(ModuleUrl, LogicModule)>,
}

/// The code at each address among `entries`.
spec fn codes(entries: Seq<(ModuleUrl, LogicModule)>) -> Map<Seq<char>, Code> {
    Map::new(
        |url: Seq<char>| exists|i: int| 0 <= i < entries.len() && (#[trigger] entries[i]).0@ == url,
        |url: Seq<char>|
            entries[choose|i: int|
                0 <= i < entries.len() && (#[trigger] entries[i]).0@ == url].1.code(),
    )
}

spec fn addresses_differ(entries: Seq<(ModuleUrl, LogicModule)>) -> bool {
    forall|i: int, j: int|
        0 <= i < j < entries.len() ==> (#[trigger] entries[i]).0@ != (#[trigger] entries[j]).0@
}

proof fn lemma_codes_at(entries: Seq<(ModuleUrl, LogicModule)>, i: int)
    requires
        addresses_differ(entries),
        0 <= i < entries.len(),
    ensures
        codes(entries).contains_key(entries[i].0@),
        codes(entries)[entries[i].0@] == entries[i].1.code(),
{
    let url = entries[i].0@;
    let found = choose|k: int| 0 <= k < entries.len() && (#[trigger] entries[k]).0@ == url;
    assert(0 <= found < entries.len() && entries[found].0@ == url);
    assert(found == i);
}

proof fn lemma_codes_agree(
    left: Seq<(ModuleUrl, LogicModule)>,
    right: Seq<(ModuleUrl, LogicModule)>,
)
    requires
        addresses_differ(right),
        left.len() == right.len(),
        forall|i: int|
            0 <= i < left.len() ==> (#[trigger] left[i]).0@ == right[i].0@ && left[i].1.code()
                == right[i].1.code(),
    ensures
        addresses_differ(left),
        codes(left) == codes(right),
{
    assert forall|i: int, j: int| 0 <= i < j < left.len() implies (#[trigger] left[i]).0@ != (
    #[trigger] left[j]).0@ by {
        assert(right[i].0@ != right[j].0@);
    }
    assert forall|url: Seq<char>| #[trigger]
        codes(left).contains_key(url) == codes(right).contains_key(url) && (codes(
            right,
        ).contains_key(url) ==> codes(left)[url] == codes(right)[url]) by {
        if codes(left).contains_key(url) {
            let i = choose|i: int| 0 <= i < left.len() && (#[trigger] left[i]).0@ == url;
            assert(right[i].0@ == url);
        }
        if codes(right).contains_key(url) {
            let i = choose|i: int| 0 <= i < right.len() && (#[trigger] right[i]).0@ == url;
            assert(left[i].0@ == url);
            lemma_codes_at(left, i);
            lemma_codes_at(right, i);
        }
    }
    assert(codes(left) =~= codes(right));
}

impl View for ModuleTable {
    type V = Map<Seq<char>, Code>;

    /// The code at each address.
    closed spec fn view(&self) -> Map<Seq<char>, Code> {
        codes(self.entries@)
    }
}

impl ModuleTable {
    #[verifier::type_invariant]
    spec fn unambiguous(self) -> bool {
        addresses_differ(self.entries@)
    }

    pub fn new() -> (table: ModuleTable)
        ensures
            table@ == Map::<Seq<char>, Code>::empty(),
    {
        let table = ModuleTable { entries: Vec::new() };
        assert(table@ =~= Map::<Seq<char>, Code>::empty());
        table
    }

    fn position(&self, url: &ModuleUrl) -> (found: Option<usize>)
        ensures
            match found {
                Some(i) => i < self.entries@.len() && self.entries@[i as int].0@ == url@,
                None => forall|i: int|
                    0 <= i < self.entries@.len() ==> (#[trigger] self.entries@[i]).0@ != url@,
            },
    {
        let mut i: usize = 0;
        while i < self.entries.len()
            invariant
                i <= self.entries@.len(),
                forall|j: int| 0 <= j < i ==> (#[trigger] self.entries@[j]).0@ != url@,
            decreases self.entries@.len() - i,
        {
            if self.entries[i].0 == *url {
                return Some(i);
            }
            i = i + 1;
        }
        None
    }

    /// Puts a module at an address, in place of the one that was there.
    pub fn insert(&mut self, url: ModuleUrl, module: LogicModule)
        ensures
            final(self)@ == old(self)@.insert(url@, module.code()),
    {
        proof {
            use_type_invariant(&*self);
        }
        let found = self.position(&url);
        let ghost before = self.entries@;
        let ghost key = url@;
        let ghost code = module.code();
        let mut entries: Vec<(ModuleUrl, LogicModule)> = Vec::new();
        std::mem::swap(&mut entries, &mut self.entries);
        let ghost at: int;
        match found {
            Some(i) => {
                entries.set(i, (url, module));
                proof {
                    at = i as int;
                }
            },
            None => {
                proof {
                    at = entries@.len() as int;
                }
                entries.push((url, module));
            },
        }
        proof {
            let after = entries@;
            assert(addresses_differ(after));
            lemma_codes_at(after, at);
            let updated = codes(before).insert(key, code);
            assert(codes(after).contains_key(key) && codes(after)[key] == code);
            assert forall|k: Seq<char>| #[trigger]
                codes(after).contains_key(k) == updated.contains_key(k) && (updated.contains_key(k)
                    ==> codes(after)[k] == updated[k]) by {
                if k != key && codes(before).contains_key(k) {
                    let i = choose|i: int| 0 <= i < before.len() && (#[trigger] before[i]).0@ == k;
                    assert(after[i] == before[i]);
                    lemma_codes_at(before, i);
                    lemma_codes_at(after, i);
                }
                if k != key && codes(after).contains_key(k) {
                    let i = choose|i: int| 0 <= i < after.len() && (#[trigger] after[i]).0@ == k;
                    assert(after[i] == before[i]);
                }
            }
            assert(codes(after) =~= updated);
        }
        self.entries = entries;
    }

    /// The module at an address.
    pub fn get(&self, url: &ModuleUrl) -> (found: Option<&LogicModule>)
        ensures
            found is Some <==> self@.contains_key(url@),
            found is Some ==> found->Some_0.code() == self@[url@],
    {
        proof {
            use_type_invariant(self);
        }
        match self.position(url) {
            Some(i) => {
                proof {
                    lemma_codes_at(self.entries@, i as int);
                }
                Some(&self.entries[i].1)
            },
            None => None,
        }
    }
}

impl Clone for ModuleTable {
    fn clone(&self) -> (res: Self)
        ensures
            res@ == self@,
    {
        proof {
            use_type_invariant(self);
        }
        let mut entries: Vec<(ModuleUrl, LogicModule)> = Vec::new();
        let mut i: usize = 0;
        while i < self.entries.len()
            invariant
                i <= self.entries@.len(),
                entries@.len() == i,
                forall|j: int|
                    0 <= j < i ==> (#[trigger] entries@[j]).0@ == self.entries@[j].0@
                        && entries@[j].1.code() == self.entries@[j].1.code(),
            decreases self.entries@.len() - i,
        {
            entries.push((self.entries[i].0.clone(), self.entries[i].1.clone()));
            i = i + 1;
        }
        proof {
            lemma_codes_agree(entries@, self.entries@);
        }
        ModuleTable { entries }
    }
}

/// A module that was put into a table is found there with its own code, and the
/// modules at all other addresses are as they were.
pub proof fn a_module_is_found_as_it_was_put(
    table: Map<Seq<char>, Code>,
    url: Seq<char>,
    code: Code,
    other: Seq<char>,
)
    ensures
        table.insert(url, code).contains_key(url),
        table.insert(url, code)[url] == code,
        other != url ==> table.insert(url, code).contains_key(other) == table.contains_key(other),
        other != url && table.contains_key(other) ==> table.insert(url, code)[other]
            == table[other],
{
}

/// A module consists of what it was given, in full: of its text where it is given
/// as JavaScript and of its bytes where it is given as WebAssembly, and a copy of
/// its code holds the same.
pub proof fn a_module_is_what_it_was_given(src: String, bytes: Vec<u8>)
    ensures
        (LogicModule::Direct { src }).code() == Code::JavaScript(src@),
        (LogicModule::Wasm { bytes }).code() == Code::Wasm(bytes@),
        ModuleCode::JavaScript(src)@ == Code::JavaScript(src@),
        ModuleCode::Wasm(bytes)@ == Code::Wasm(bytes@),
        Code::JavaScript(src@).module_type() == ModuleType::JavaScript,
        Code::Wasm(bytes@).module_type() == ModuleType::Wasm,
{
}

/// A module that was found has the address that was asked for and the code that
/// it was put there with, in the language of that code.
pub proof fn a_module_is_served_as_it_was_put(source: ModuleSource, url: Seq<char>, code: Code)
    requires
        source.is_script(url, code),
    ensures
        source.url@ == url,
        source.code@ == code,
        source.module_type == ModuleType::JavaScript <==> code is JavaScript,
        source.module_type == ModuleType::Wasm <==> code is Wasm,
        code matches Code::JavaScript(text) ==> source.code is JavaScript
            && source.code->JavaScript_0@ == text,
        code matches Code::Wasm(bytes) ==> source.code is Wasm && source.code->Wasm_0@ == bytes,
{
}

} // verus!
