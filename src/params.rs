//! Named-and-located parameters of the item resources, with the builders
//! that collect them field by field.

use vstd::prelude::*;

verus! {

/// A name and a location, as text.
pub struct NameLocationView {
    pub name: Seq<char>,
    pub location: Seq<char>,
}

/// A name and a location that may each be missing yet.
pub struct NameLocationDraft {
    pub name: Option<Seq<char>>,
    pub location: Option<Seq<char>>,
}

pub open spec fn opt_view(o: Option<String>) -> Option<Seq<char>> {
    match o {
        Some(s) => Some(s@),
        None => None,
    }
}

/// Parameters of a new entity.
#[derive(Clone, Debug, PartialEq, Eq)]
pub struct Params {
    name: String,
    location: String,
}

impl View for Params {
    type V = NameLocationView;

    closed spec fn view(&self) -> NameLocationView {
        NameLocationView { name: self.name@, location: self.location@ }
    }
}

impl Params {
    pub fn name(&self) -> (r: &str)
        ensures
            r@ == self@.name,
    {
        self.name.as_str()
    }

    pub fn location(&self) -> (r: &str)
        ensures
            r@ == self@.location,
    {
        self.location.as_str()
    }
}

#[derive(Clone, Copy, Debug, PartialEq, Eq, Structural)]
pub enum ParamsBuilderError {
    NameNotSet,
    LocationNotSet,
}

#[derive(Clone, Debug, PartialEq, Eq)]
pub struct ParamsBuilder {
    name: Option<String>,
    location: Option<String>,
}

impl View for ParamsBuilder {
    type V = NameLocationDraft;

    closed spec fn view(&self) -> NameLocationDraft {
        NameLocationDraft { name: opt_view(self.name), location: opt_view(self.location) }
    }
}

impl ParamsBuilder {
    pub fn new() -> (r: ParamsBuilder)
        ensures
            r@ == (NameLocationDraft { name: None, location: None }),
    {
        ParamsBuilder { name: None, location: None }
    }

    pub fn name(self, name: String) -> (r: ParamsBuilder)
        ensures
            r@ == (NameLocationDraft { name: Some(name@), location: self@.location }),
    {
        ParamsBuilder { name: Some(name), location: self.location }
    }

    pub fn location(self, location: String) -> (r: ParamsBuilder)
        ensures
            r@ == (NameLocationDraft { name: self@.name, location: Some(location@) }),
    {
        ParamsBuilder { name: self.name, location: Some(location) }
    }

    /// A missing name is reported before a missing location.
    pub fn build(self) -> (r: Result<Params, ParamsBuilderError>)
        ensures
            match (self@.name, self@.location) {
                (None, _) => r == Err::<Params, ParamsBuilderError>(ParamsBuilderError::NameNotSet),
                (Some(_), None) => r == Err::<Params, ParamsBuilderError>(ParamsBuilderError::LocationNotSet),
                (Some(name), Some(location)) => r matches Ok(p) && p@ == (NameLocationView {
                    name,
                    location,
                }),
            },
    {
        let name = match self.name {
            Some(name) => name,
            None => return Err(ParamsBuilderError::NameNotSet),
        };
        let location = match self.location {
            Some(location) => location,
            None => return Err(ParamsBuilderError::LocationNotSet),
        };
        Ok(Params { name, location })
    }
}

impl Default for ParamsBuilder {
    fn default() -> (r: ParamsBuilder)
        ensures
            r@ == (NameLocationDraft { name: None, location: None }),
    {
        ParamsBuilder::new()
    }
}

/// Parameters that replace the mutable fields of an entity.
#[derive(Clone, Debug, PartialEq, Eq)]
pub struct MutableParams {
    name: String,
    location: String,
}

impl View for MutableParams {
    type V = NameLocationView;

    closed spec fn view(&self) -> NameLocationView {
        NameLocationView { name: self.name@, location: self.location@ }
    }
}

impl MutableParams {
    pub fn name(&self) -> (r: &str)
        ensures
            r@ == self@.name,
    {
        self.name.as_str()
    }

    pub fn location(&self) -> (r: &str)
        ensures
            r@ == self@.location,
    {
        self.location.as_str()
    }
}

#[derive(Clone, Copy, Debug, PartialEq, Eq, Structural)]
pub enum MutableParamsBuilderError {
    NameNotSet,
    LocationNotSet,
}

#[derive(Clone, Debug, PartialEq, Eq)]
pub struct MutableParamsBuilder {
    name: Option<String>,
    location: Option<String>,
}

impl View for MutableParamsBuilder {
    type V = NameLocationDraft;

    closed spec fn view(&self) -> NameLocationDraft {
        NameLocationDraft { name: opt_view(self.name), location: opt_view(self.location) }
    }
}

impl MutableParamsBuilder {
    pub fn new() -> (r: MutableParamsBuilder)
        ensures
            r@ == (NameLocationDraft { name: None, location: None }),
    {
        MutableParamsBuilder { name: None, location: None }
    }

    pub fn name(self, name: String) -> (r: MutableParamsBuilder)
        ensures
            r@ == (NameLocationDraft { name: Some(name@), location: self@.location }),
    {
        MutableParamsBuilder { name: Some(name), location: self.location }
    }

    pub fn location(self, location: String) -> (r: MutableParamsBuilder)
        ensures
            r@ == (NameLocationDraft { name: self@.name, location: Some(location@) }),
    {
        MutableParamsBuilder { name: self.name, location: Some(location) }
    }

    /// A missing name is reported before a missing location.
    pub fn build(self) -> (r: Result<MutableParams, MutableParamsBuilderError>)
        ensures
            match (self@.name, self@.location) {
                (None, _) => r == Err::<MutableParams, MutableParamsBuilderError>(MutableParamsBuilderError::NameNotSet),
                (Some(_), None) => r == Err::<MutableParams, MutableParamsBuilderError>(MutableParamsBuilderError::LocationNotSet),
                (Some(name), Some(location)) => r matches Ok(p) && p@ == (NameLocationView {
                    name,
                    location,
                }),
            },
    {
        let name = match self.name {
            Some(name) => name,
            None => return Err(MutableParamsBuilderError::NameNotSet),
        };
        let location = match self.location {
            Some(location) => location,
            None => return Err(MutableParamsBuilderError::LocationNotSet),
        };
        Ok(MutableParams { name, location })
    }
}

impl Default for MutableParamsBuilder {
    fn default() -> (r: MutableParamsBuilder)
        ensures
            r@ == (NameLocationDraft { name: None, location: None }),
    {
        MutableParamsBuilder::new()
    }
}

/// Parameters of a new item.
#[derive(Clone, Debug, PartialEq, Eq)]
pub struct CreateItemParams {
    name: String,
    location: String,
}

impl View for CreateItemParams {
    type V = NameLocationView;

    closed spec fn view(&self) -> NameLocationView {
        NameLocationView { name: self.name@, location: self.location@ }
    }
}

impl CreateItemParams {
    pub fn name(&self) -> (r: &str)
        ensures
            r@ == self@.name,
    {
        self.name.as_str()
    }

    pub fn location(&self) -> (r: &str)
        ensures
            r@ == self@.location,
    {
        self.location.as_str()
    }
}

#[derive(Clone, Copy, Debug, PartialEq, Eq, Structural)]
pub enum CreateItemParamsBuilderError {
    NameNotSet,
    LocationNotSet,
}

#[derive(Clone, Debug, PartialEq, Eq)]
pub struct CreateItemsParamsBuilder {
    name: Option<String>,
    location: Option<String>,
}

impl View for CreateItemsParamsBuilder {
    type V = NameLocationDraft;

    closed spec fn view(&self) -> NameLocationDraft {
        NameLocationDraft { name: opt_view(self.name), location: opt_view(self.location) }
    }
}

impl CreateItemsParamsBuilder {
    pub fn new() -> (r: CreateItemsParamsBuilder)
        ensures
            r@ == (NameLocationDraft { name: None, location: None }),
    {
        CreateItemsParamsBuilder { name: None, location: None }
    }

    pub fn name(self, name: String) -> (r: CreateItemsParamsBuilder)
        ensures
            r@ == (NameLocationDraft { name: Some(name@), location: self@.location }),
    {
        CreateItemsParamsBuilder { name: Some(name), location: self.location }
    }

    pub fn location(self, location: String) -> (r: CreateItemsParamsBuilder)
        ensures
            r@ == (NameLocationDraft { name: self@.name, location: Some(location@) }),
    {
        CreateItemsParamsBuilder { name: self.name, location: Some(location) }
    }

    /// A missing name is reported before a missing location.
    pub fn build(self) -> (r: Result<CreateItemParams, CreateItemParamsBuilderError>)
        ensures
            match (self@.name, self@.location) {
                (None, _) => r == Err::<CreateItemParams, CreateItemParamsBuilderError>(CreateItemParamsBuilderError::NameNotSet),
                (Some(_), None) => r == Err::<CreateItemParams, CreateItemParamsBuilderError>(CreateItemParamsBuilderError::LocationNotSet),
                (Some(name), Some(location)) => r matches Ok(p) && p@ == (NameLocationView {
                    name,
                    location,
                }),
            },
    {
        let name = match self.name {
            Some(name) => name,
            None => return Err(CreateItemParamsBuilderError::NameNotSet),
        };
        let location = match self.location {
            Some(location) => location,
            None => return Err(CreateItemParamsBuilderError::LocationNotSet),
        };
        Ok(CreateItemParams { name, location })
    }
}

impl Default for CreateItemsParamsBuilder {
    fn default() -> (r: CreateItemsParamsBuilder)
        ensures
            r@ == (NameLocationDraft { name: None, location: None }),
    {
        CreateItemsParamsBuilder::new()
    }
}

/// Parameters that replace the name and location of an item.
#[derive(Clone, Debug, PartialEq, Eq)]
pub struct UpdateItemParams {
    name: String,
    location: String,
}

impl View for UpdateItemParams {
    type V = NameLocationView;

    closed spec fn view(&self) -> NameLocationView {
        NameLocationView { name: self.name@, location: self.location@ }
    }
}

impl UpdateItemParams {
    pub fn name(&self) -> (r: &str)
        ensures
            r@ == self@.name,
    {
        self.name.as_str()
    }

    pub fn location(&self) -> (r: &str)
        ensures
            r@ == self@.location,
    {
        self.location.as_str()
    }
}

#[derive(Clone, Copy, Debug, PartialEq, Eq, Structural)]
pub enum UpdateItemParamsBuilderError {
    NameNotSet,
    LocationNotSet,
}

#[derive(Clone, Debug, PartialEq, Eq)]
pub struct UpdateItemParamsBuilder {
    name: Option<String>,
    location: Option<String>,
}

impl View for UpdateItemParamsBuilder {
    type V = NameLocationDraft;

    closed spec fn view(&self) -> NameLocationDraft {
        NameLocationDraft { name: opt_view(self.name), location: opt_view(self.location) }
    }
}

impl UpdateItemParamsBuilder {
    pub fn new() -> (r: UpdateItemParamsBuilder)
        ensures
            r@ == (NameLocationDraft { name: None, location: None }),
    {
        UpdateItemParamsBuilder { name: None, location: None }
    }

    pub fn name(self, name: String) -> (r: UpdateItemParamsBuilder)
        ensures
            r@ == (NameLocationDraft { name: Some(name@), location: self@.location }),
    {
        UpdateItemParamsBuilder { name: Some(name), location: self.location }
    }

    pub fn location(self, location: String) -> (r: UpdateItemParamsBuilder)
        ensures
            r@ == (NameLocationDraft { name: self@.name, location: Some(location@) }),
    {
        UpdateItemParamsBuilder { name: self.name, location: Some(location) }
    }

    /// A missing name is reported before a missing location.
    pub fn build(self) -> (r: Result<UpdateItemParams, UpdateItemParamsBuilderError>)
        ensures
            match (self@.name, self@.location) {
                (None, _) => r == Err::<UpdateItemParams, UpdateItemParamsBuilderError>(UpdateItemParamsBuilderError::NameNotSet),
                (Some(_), None) => r == Err::<UpdateItemParams, UpdateItemParamsBuilderError>(UpdateItemParamsBuilderError::LocationNotSet),
                (Some(name), Some(location)) => r matches Ok(p) && p@ == (NameLocationView {
                    name,
                    location,
                }),
            },
    {
        let name = match self.name {
            Some(name) => name,
            None => return Err(UpdateItemParamsBuilderError::NameNotSet),
        };
        let location = match self.location {
            Some(location) => location,
            None => return Err(UpdateItemParamsBuilderError::LocationNotSet),
        };
        Ok(UpdateItemParams { name, location })
    }
}

impl Default for UpdateItemParamsBuilder {
    fn default() -> (r: UpdateItemParamsBuilder)
        ensures
            r@ == (NameLocationDraft { name: None, location: None }),
    {
        UpdateItemParamsBuilder::new()
    }
}

/// Parameters of a new item as a request body carries them.
#[derive(Clone, Debug, PartialEq, Eq)]
pub struct HttpCreateItemParams {
    name: String,
    location: String,
}

impl View for HttpCreateItemParams {
    type V = NameLocationView;

    closed spec fn view(&self) -> NameLocationView {
        NameLocationView { name: self.name@, location: self.location@ }
    }
}

impl HttpCreateItemParams {
    pub fn new(name: String, location: String) -> (r: HttpCreateItemParams)
        ensures
            r@ == (NameLocationView { name: name@, location: location@ }),
    {
        HttpCreateItemParams { name, location }
    }

    /// The body carries both fields, so the builder never refuses it.
    pub fn try_into_params(self) -> (r: Result<CreateItemParams, CreateItemParamsBuilderError>)
        ensures
            r matches Ok(p) && p@ == self@,
    {
        CreateItemsParamsBuilder::new().location(self.location).name(self.name).build()
    }
}

/// New name and location of an item as a request body carries them.
#[derive(Clone, Debug, PartialEq, Eq)]
pub struct HttpUpdateItemParams {
    name: String,
    location: String,
}

impl View for HttpUpdateItemParams {
    type V = NameLocationView;

    closed spec fn view(&self) -> NameLocationView {
        NameLocationView { name: self.name@, location: self.location@ }
    }
}

impl HttpUpdateItemParams {
    pub fn new(name: String, location: String) -> (r: HttpUpdateItemParams)
        ensures
            r@ == (NameLocationView { name: name@, location: location@ }),
    {
        HttpUpdateItemParams { name, location }
    }

    /// The body carries both fields, so the builder never refuses it.
    pub fn try_into_params(self) -> (r: Result<UpdateItemParams, UpdateItemParamsBuilderError>)
        ensures
            r matches Ok(p) && p@ == self@,
    {
        UpdateItemParamsBuilder::new().location(self.location).name(self.name).build()
    }
}

} // verus!
