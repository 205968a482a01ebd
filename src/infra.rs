use vstd::prelude::*;

verus! {

/// The RailJSON format version this application reads and writes.
pub const RAILJSON_VERSION: &'static str = "3.4.11";

/// Changes to the fields of an infrastructure record; a field left at
/// `None` is not changed.
pub struct InfraChangeset {
    pub name: Option<String>,
    pub railjson_version: Option<String>,
    pub locked: Option<bool>,
}

impl InfraChangeset {
    /// A changeset that changes nothing.
    pub fn new() -> (r: InfraChangeset)
        ensures
            r.name is None,
            r.railjson_version is None,
            r.locked is None,
    {
        InfraChangeset { name: None, railjson_version: None, locked: None }
    }

    /// Set the infrastructure's name.
    pub fn name(self, name: String) -> (r: InfraChangeset)
        ensures
            r.name == Some(name),
            r.railjson_version == self.railjson_version,
            r.locked == self.locked,
    {
        InfraChangeset { name: Some(name), ..self }
    }

    /// Set the RailJSON version the infrastructure is stored in.
    pub fn railjson_version(self, railjson_version: String) -> (r: InfraChangeset)
        ensures
            r.railjson_version == Some(railjson_version),
            r.name == self.name,
            r.locked == self.locked,
    {
        InfraChangeset { railjson_version: Some(railjson_version), ..self }
    }

    /// Set the RailJSON version to the one this application uses.
    pub fn last_railjson_version(self) -> (r: InfraChangeset)
        ensures
            r.railjson_version matches Some(v) && v@ == RAILJSON_VERSION@,
            r.name == self.name,
            r.locked == self.locked,
    {
        self.railjson_version(RAILJSON_VERSION.to_owned())
    }
}

} // verus!
