use vstd::prelude::*;

verus! {

/// The plugin factory a CLAP entry point hands out: it describes and creates the one
/// plugin of the library, and counts the references the host holds to it.
pub struct Factory {
    count: usize,
    plugin_id: String,
}

/// The id under which a host asks for a plugin factory.
pub open spec fn plugin_factory_id() -> Seq<char> {
    "clap.plugin-factory"@
}

/// The count of references after one more is taken.
pub open spec fn with_reference_taken(count: nat) -> nat {
    count + 1
}

/// The count of references after one is given back.
pub open spec fn with_reference_returned(count: nat) -> nat {
    (count - 1) as nat
}

impl Factory {
    pub closed spec fn references(&self) -> nat {
        self.count as nat
    }

    pub closed spec fn plugin_id(&self) -> Seq<char> {
        self.plugin_id@
    }

    /// A factory is made when the host first asks for it, so it starts with one reference.
    pub fn new(plugin_id: String) -> (factory: Self)
        ensures
            factory.references() == 1,
            factory.plugin_id() == plugin_id@,
    {
        Factory { count: 1, plugin_id }
    }

    /// The factory for plugin `P`, which creates it under its CLAP id.
    pub fn for_plugin<P: crate::plugin::ClapPlugin>() -> (factory: Self)
        ensures
            factory.references() == 1,
            factory.plugin_id() == P::CLAP_ID@,
    {
        Factory::new(P::CLAP_ID.to_owned())
    }

    pub fn count(&self) -> (count: usize)
        ensures
            count == self.references(),
    {
        self.count
    }

    /// Takes one more reference and returns how many there are.
    pub fn add_ref(&mut self) -> (count: usize)
        requires
            old(self).references() < usize::MAX,
        ensures
            final(self).references() == with_reference_taken(old(self).references()),
            count == final(self).references(),
            final(self).plugin_id() == old(self).plugin_id(),
    {
        self.count = self.count + 1;
        self.count
    }

    /// Gives one reference back and returns how many are left.
    pub fn remove_ref(&mut self) -> (count: usize)
        requires
            old(self).references() > 0,
        ensures
            final(self).references() == with_reference_returned(old(self).references()),
            count == final(self).references(),
            final(self).plugin_id() == old(self).plugin_id(),
    {
        self.count = self.count - 1;
        self.count
    }

    /// Whether a host asks for the plugin factory; a missing id asks for nothing.
    pub fn is_valid_factory_id(factory_id: Option<&str>) -> (valid: bool)
        ensures
            valid == (factory_id matches Some(id) && id@ == plugin_factory_id()),
    {
        match factory_id {
            Some(id) => id.to_owned() == String::from_str("clap.plugin-factory"),
            None => false,
        }
    }

    /// The factory holds one plugin.
    pub fn plugin_count(&self) -> (count: u32)
        ensures
            count == 1,
    {
        1
    }

    /// Whether there is a plugin descriptor at this index: only at the first.
    pub fn has_descriptor(&self, index: u32) -> (found: bool)
        ensures
            found == (index == 0),
    {
        index == 0
    }

    /// Whether a plugin is created for a request by id: only for the factory's own plugin.
    pub fn creates(&self, requested_id: Option<&str>) -> (created: bool)
        ensures
            created == (requested_id matches Some(id) && id@ == self.plugin_id()),
    {
        match requested_id {
            Some(id) => id.to_owned() == self.plugin_id.clone(),
            None => false,
        }
    }
}

/// Taking a reference and giving it back leaves the count where it was.
pub proof fn lemma_add_then_remove_ref(count: nat)
    ensures
        with_reference_returned(with_reference_taken(count)) == count,
{
}

} // verus!
