//! The typed records that the extractor and the discovery stage produce.
use vstd::prelude::*;

verus! {

/// Spec-level image of a [`Parameter`].
pub ghost struct ParamModel {
    pub name: Seq<char>,
    pub default_value: Option<Seq<char>>,
    pub required: bool,
    pub description: Seq<char>,
}

/// One configurable option row of a console module: name, optional default
/// value, required flag, and free-text description.
#[derive(Debug, Clone, PartialEq, Eq)]
pub struct Parameter {
    pub name: String,
    pub default_value: Option<String>,
    pub required: bool,
    pub description: String,
}

impl View for Parameter {
    type V = ParamModel;

    open spec fn view(&self) -> ParamModel {
        ParamModel {
            name: self.name@,
            default_value: match self.default_value {
                Some(d) => Some(d@),
                None => None,
            },
            required: self.required,
            description: self.description@,
        }
    }
}

impl DeepView for Parameter {
    type V = ParamModel;

    open spec fn deep_view(&self) -> ParamModel {
        self.view()
    }
}

impl Parameter {
    pub fn new(
        name: String,
        default_value: Option<String>,
        required: bool,
        description: String,
    ) -> (p: Self)
        ensures
            p.name == name,
            p.default_value == default_value,
            p.required == required,
            p.description == description,
    {
        Self { name, default_value, required, description }
    }
}

/// One discovered module together with everything learnt about it. Created
/// with only the name set; enriched in place once its option tables parse.
#[derive(Debug, Clone)]
pub struct ModuleRecord {
    pub name: String,
    pub payload: String,
    pub options: Option<Vec<Parameter>>,
    pub payload_options: Option<Vec<Parameter>>,
    pub target: Option<Vec<String>>,
}

impl ModuleRecord {
    /// The record carries nothing beyond its name.
    pub open spec fn is_blank(self) -> bool {
        &&& self.payload@.len() == 0
        &&& self.options is None
        &&& self.payload_options is None
        &&& self.target is None
    }

    /// A fresh record for a just-discovered module.
    pub fn with_name(name: String) -> (r: Self)
        ensures
            r.name == name,
            r.is_blank(),
    {
        Self {
            name,
            payload: String::new(),
            options: None,
            payload_options: None,
            target: None,
        }
    }
}

/// One row of a module listing: the summary line a listing command prints
/// for each module.
#[derive(Debug, Clone, PartialEq, Eq)]
pub struct ListingEntry {
    pub name: String,
    pub disclosure_date: String,
    pub rank: String,
    pub check: bool,
    pub description: String,
}

/// Spec-level image of a [`ListingEntry`].
pub ghost struct ListingModel {
    pub name: Seq<char>,
    pub disclosure_date: Seq<char>,
    pub rank: Seq<char>,
    pub check: bool,
    pub description: Seq<char>,
}

impl View for ListingEntry {
    type V = ListingModel;

    open spec fn view(&self) -> ListingModel {
        ListingModel {
            name: self.name@,
            disclosure_date: self.disclosure_date@,
            rank: self.rank@,
            check: self.check,
            description: self.description@,
        }
    }
}

impl DeepView for ListingEntry {
    type V = ListingModel;

    open spec fn deep_view(&self) -> ListingModel {
        self.view()
    }
}

} // verus!
