//! The models offered by the local Ollama server, as the window lists them
//! and lets the user pick one.
use vstd::prelude::*;
use crate::text::{decimal, decimal_string};

verus! {

/// A model as the server's model list describes it.
#[derive(Clone, Debug, PartialEq, Eq)]
pub struct ModelData {
    pub name: String,
    pub modified_at: String,
    pub size: u64,
}

/// The model list and the model chosen for the next request.
pub struct ModelPicker {
    pub models: Vec<ModelData>,
    pub selected: String,
}

impl ModelPicker {
    /// No models known yet, none chosen.
    pub fn new() -> (p: ModelPicker)
        ensures
            p.models@.len() == 0,
            p.selected@.len() == 0,
    {
        ModelPicker { models: Vec::new(), selected: String::new() }
    }

    /// The model list arrived (`None`: it could not be read). A list replaces
    /// the known one, and its first model becomes the chosen one; an empty
    /// list keeps the choice.
    pub fn on_models_loaded(&mut self, loaded: Option<Vec<ModelData>>)
        ensures
            loaded is None ==> final(self).models@ == old(self).models@ && final(self).selected
                == old(self).selected,
            loaded matches Some(list) ==> {
                &&& final(self).models@ == list@
                &&& final(self).selected@ == (if list@.len() > 0 {
                    list@[0].name@
                } else {
                    old(self).selected@
                })
            },
    {
        if let Some(list) = loaded {
            if list.len() > 0 {
                self.selected = list[0].name.clone();
            }
            self.models = list;
        }
    }

    /// The user chose a model.
    pub fn select(&mut self, name: String)
        ensures
            final(self).selected == name,
            final(self).models@ == old(self).models@,
    {
        self.selected = name;
    }
}

/// The page that lists the available models.
pub struct ModelListPage {
    pub models: Vec<ModelData>,
}

impl ModelListPage {
    /// The page before the model list arrives.
    pub fn new() -> (p: ModelListPage)
        ensures
            p.models@.len() == 0,
    {
        ModelListPage { models: Vec::new() }
    }

    /// The model list arrived (`None`: it could not be read, and the page
    /// keeps what it shows).
    pub fn on_models_loaded(&mut self, loaded: Option<Vec<ModelData>>)
        ensures
            loaded is None ==> final(self).models@ == old(self).models@,
            loaded matches Some(list) ==> final(self).models@ == list@,
    {
        if let Some(list) = loaded {
            self.models = list;
        }
    }
}

/// A model's size in whole mebibytes, rounded down.
pub open spec fn size_in_mib(size: u64) -> nat {
    (size / 1024 / 1024) as nat
}

/// The size line of a model: `"Size: "`, the whole mebibytes, `" MB"`.
pub fn size_label(size: u64) -> (r: String)
    ensures
        r@ == "Size: "@ + decimal(size_in_mib(size)) + " MB"@,
{
    let mut r = String::from_str("Size: ");
    let n = decimal_string(size / 1024 / 1024);
    r.append(n.as_str());
    r.append(" MB");
    r
}

/// The modification line of a model: `"Modified: "` and the date as the
/// server gave it.
pub fn modified_label(modified_at: &str) -> (r: String)
    ensures
        r@ == "Modified: "@ + modified_at@,
{
    let mut r = String::from_str("Modified: ");
    r.append(modified_at);
    r
}

} // verus!
