use vstd::prelude::*;

use crate::error::BootstrapError;

verus! {

/// A capability name is handed to the driver as a C string, so it must not
/// contain an embedded null character.
pub open spec fn valid_name_chars(s: Seq<char>) -> bool {
    forall|i: int| 0 <= i < s.len() ==> s[i] != '\0'
}

/// Every name in the sequence is free of embedded null characters.
pub open spec fn all_names_valid(names: Seq<Seq<char>>) -> bool {
    forall|i: int| 0 <= i < names.len() ==> valid_name_chars(#[trigger] names[i])
}

/// Reports whether `name` is free of embedded null characters.
pub fn name_is_valid(name: &str) -> (ok: bool)
    ensures
        ok == valid_name_chars(name@),
{
    let len = name.unicode_len();
    let mut i: usize = 0;
    while i < len
        invariant
            len == name@.len(),
            i <= len,
            forall|j: int| 0 <= j < i ==> name@[j] != '\0',
        decreases len - i,
    {
        if name.get_char(i) == '\0' {
            return false;
        }
        i = i + 1;
    }
    true
}

/// An ordered list of capability names destined for exactly one driver call,
/// owning its backing storage. Duplicates are harmless and order is kept.
pub struct ExtensionNameSet {
    names: Vec<String>,
}

impl View for ExtensionNameSet {
    type V = Seq<Seq<char>>;

    closed spec fn view(&self) -> Seq<Seq<char>> {
        self.names.deep_view()
    }
}

impl ExtensionNameSet {
    /// Every held name is valid as a C-compatible string.
    pub open spec fn wf(&self) -> bool {
        all_names_valid(self@)
    }

    /// Validates and takes ownership of `names`; any embedded null in any
    /// name rejects the whole list.
    pub fn new(names: Vec<String>) -> (result: Result<ExtensionNameSet, BootstrapError>)
        ensures
            result is Ok <==> all_names_valid(names.deep_view()),
            match result {
                Ok(set) => set@ == names.deep_view() && set.wf(),
                Err(e) => e == BootstrapError::InvalidName,
            },
    {
        let n = names.len();
        let mut i: usize = 0;
        while i < n
            invariant
                n == names.len(),
                i <= n,
                forall|j: int| 0 <= j < i ==> valid_name_chars(#[trigger] names.deep_view()[j]),
            decreases n - i,
        {
            if !name_is_valid(names[i].as_str()) {
                assert(!valid_name_chars(names.deep_view()[i as int]));
                return Err(BootstrapError::InvalidName);
            }
            assert(valid_name_chars(names.deep_view()[i as int]));
            i = i + 1;
        }
        Ok(ExtensionNameSet { names })
    }

    /// A set with no names.
    pub fn empty() -> (result: ExtensionNameSet)
        ensures
            result@ == Seq::<Seq<char>>::empty(),
            result.wf(),
    {
        let result = ExtensionNameSet { names: Vec::new() };
        assert(result@ =~= Seq::<Seq<char>>::empty());
        result
    }

    /// Appends one name, rejecting an embedded null and leaving the set
    /// unchanged in that case.
    pub fn push_name(&mut self, name: &str) -> (result: Result<(), BootstrapError>)
        requires
            old(self).wf(),
        ensures
            result is Ok <==> valid_name_chars(name@),
            match result {
                Ok(u) => final(self)@ == old(self)@.push(name@) && final(self).wf(),
                Err(e) => e == BootstrapError::InvalidName && final(self)@ == old(self)@,
            },
    {
        if !name_is_valid(name) {
            return Err(BootstrapError::InvalidName);
        }
        let owned = String::from_str(name);
        self.names.push(owned);
        assert(self@ =~= old(self)@.push(name@));
        Ok(())
    }

    /// How many names are held.
    pub fn len(&self) -> (n: usize)
        ensures
            n == self@.len(),
    {
        self.names.len()
    }

    /// Read access to the name at `i`.
    pub fn name_at(&self, i: usize) -> (name: &str)
        requires
            i < self@.len(),
        ensures
            name@ == self@[i as int],
    {
        self.names[i].as_str()
    }

    /// Surrenders the backing storage, for marshaling at the API boundary.
    pub fn into_names(self) -> (names: Vec<String>)
        ensures
            names.deep_view() == self@,
    {
        self.names
    }
}

/// The extension-name list handed to instance creation: the windowing
/// collaborator's required names, with the diagnostics extension name
/// appended exactly when diagnostics are enabled.
pub fn instance_extension_names(
    required: ExtensionNameSet,
    enable_diagnostics: bool,
    diagnostics_name: &str,
) -> (result: Result<ExtensionNameSet, BootstrapError>)
    requires
        required.wf(),
    ensures
        result is Ok <==> (enable_diagnostics ==> valid_name_chars(diagnostics_name@)),
        match result {
            Ok(set) => {
                &&& set@ == (if enable_diagnostics {
                    required@.push(diagnostics_name@)
                } else {
                    required@
                })
                &&& set.wf()
            },
            Err(e) => e == BootstrapError::InvalidName,
        },
{
    if enable_diagnostics {
        let mut set = required;
        match set.push_name(diagnostics_name) {
            Ok(u) => Ok(set),
            Err(e) => Err(e),
        }
    } else {
        Ok(required)
    }
}

} // verus!
