//! The application descriptor handed to instance creation.

use vstd::prelude::*;
use crate::vulkan::{make_api_version, packed_version};

verus! {

/// What an [`ApplicationDescriptor`] holds, as plain values.
pub struct ApplicationDescriptorView {
    pub name: Seq<char>,
    pub version: u32,
    pub engine_name: Seq<char>,
    pub engine_version: u32,
    pub api_version: u32,
}

/// Name and version of the application and of its engine, and the API
/// version the application targets. Built once and never changed.
#[derive(Debug)]
pub struct ApplicationDescriptor {
    name: String,
    version: u32,
    engine_name: String,
    engine_version: u32,
    api_version: u32,
}

impl View for ApplicationDescriptor {
    type V = ApplicationDescriptorView;

    closed spec fn view(&self) -> ApplicationDescriptorView {
        ApplicationDescriptorView {
            name: self.name@,
            version: self.version,
            engine_name: self.engine_name@,
            engine_version: self.engine_version,
            api_version: self.api_version,
        }
    }
}

/// The descriptor of this application: version 0.1.0 of "Vulkan Application",
/// on version 0.1.0 of "No Engine", written for version 1.0.0 of the API.
pub open spec fn standard_descriptor() -> ApplicationDescriptorView {
    ApplicationDescriptorView {
        name: "Vulkan Application"@,
        version: packed_version(0, 0, 1, 0),
        engine_name: "No Engine"@,
        engine_version: packed_version(0, 0, 1, 0),
        api_version: packed_version(0, 1, 0, 0),
    }
}

/// The packed forms of the two versions that the standard descriptor uses.
pub proof fn lemma_standard_versions()
    ensures
        packed_version(0, 0, 1, 0) == 4096,
        packed_version(0, 1, 0, 0) == 4194304,
{
    assert(packed_version(0, 0, 1, 0) == 4096) by (bit_vector);
    assert(packed_version(0, 1, 0, 0) == 4194304) by (bit_vector);
}

/// Builds the descriptor of this application.
pub fn build_application_descriptor() -> (descriptor: ApplicationDescriptor)
    ensures
        descriptor@ == standard_descriptor(),
        descriptor@.version == 4096,
        descriptor@.engine_version == 4096,
        descriptor@.api_version == 4194304,
{
    proof {
        lemma_standard_versions();
    }
    ApplicationDescriptor {
        name: "Vulkan Application".to_owned(),
        version: make_api_version(0, 0, 1, 0),
        engine_name: "No Engine".to_owned(),
        engine_version: make_api_version(0, 0, 1, 0),
        api_version: make_api_version(0, 1, 0, 0),
    }
}

impl ApplicationDescriptor {
    /// The application's name.
    pub fn name(&self) -> (name: &String)
        ensures
            name@ == self@.name,
    {
        &self.name
    }

    /// The application's version, packed.
    pub fn version(&self) -> (version: u32)
        ensures
            version == self@.version,
    {
        self.version
    }

    /// The engine's name.
    pub fn engine_name(&self) -> (name: &String)
        ensures
            name@ == self@.engine_name,
    {
        &self.engine_name
    }

    /// The engine's version, packed.
    pub fn engine_version(&self) -> (version: u32)
        ensures
            version == self@.engine_version,
    {
        self.engine_version
    }

    /// The API version that the application targets, packed.
    pub fn api_version(&self) -> (version: u32)
        ensures
            version == self@.api_version,
    {
        self.api_version
    }
}

} // verus!
