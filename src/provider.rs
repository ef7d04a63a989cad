use vstd::prelude::*;
use vstd::string::*;

use crate::error::AppError;

verus! {

/// A provider of one application.
pub struct Provider {
    pub id: String,
    pub name: String,
    /// The settings handed to the application, as JSON text.
    pub settings_config: String,
    pub website_url: Option<String>,
    /// `"official"` marks a built-in provider.
    pub category: Option<String>,
}

impl Provider {
    /// Whether the provider is a built-in one.
    pub open spec fn official(&self) -> bool {
        self.category matches Some(c) && c@ == "official"@
    }

    /// A provider without a category.
    pub fn with_id(id: String, name: String, settings_config: String, website_url: Option<String>) -> (r:
        Provider)
        ensures
            r.id == id,
            r.name == name,
            r.settings_config == settings_config,
            r.website_url == website_url,
            r.category is None,
    {
        Provider { id, name, settings_config, website_url, category: None }
    }

    pub fn is_official(&self) -> (r: bool)
        ensures
            r == self.official(),
    {
        match &self.category {
            Some(c) => *c == String::from_str("official"),
            None => false,
        }
    }
}

/// The providers of one application and the one in use.
pub struct AppConfig {
    pub providers: Vec<Provider>,
    pub current_provider_id: Option<String>,
}

pub open spec fn has_provider(p: Seq<Provider>, id: Seq<char>) -> bool {
    exists|i: int| 0 <= i < p.len() && p[i].id@ == id
}

pub open spec fn distinct_provider_ids(p: Seq<Provider>) -> bool {
    forall|i: int, j: int| 0 <= i < j < p.len() ==> p[i].id@ != p[j].id@
}

impl AppConfig {
    /// Provider ids are unique and the current provider, if set, is one of them.
    pub open spec fn wf(&self) -> bool {
        distinct_provider_ids(self.providers@) && self.current_valid()
    }

    /// The current provider, if set, is one of the providers.
    pub open spec fn current_valid(&self) -> bool {
        self.current_provider_id matches Some(c) ==> has_provider(self.providers@, c@)
    }

    /// The index of the provider `id`.
    pub fn find_provider(&self, id: &str) -> (r: Option<usize>)
        ensures
            r is None <==> !has_provider(self.providers@, id@),
            r matches Some(i) ==> i < self.providers@.len() && self.providers@[i as int].id@ == id@,
            r matches Some(i) ==> distinct_provider_ids(self.providers@) ==> forall|j: int|
                0 <= j < self.providers@.len() && self.providers@[j].id@ == id@ ==> j == i,
    {
        let wanted = String::from_str(id);
        let n = self.providers.len();
        let mut i: usize = 0;
        while i < n
            invariant
                n == self.providers.len(),
                0 <= i <= n,
                wanted@ == id@,
                forall|j: int| 0 <= j < i ==> self.providers@[j].id@ != id@,
            decreases n - i,
        {
            if self.providers[i].id == wanted {
                assert(distinct_provider_ids(self.providers@) ==> forall|j: int|
                    0 <= j < self.providers@.len() && self.providers@[j].id@ == id@ ==> j == i) by {
                    if distinct_provider_ids(self.providers@) {
                        assert forall|j: int|
                            0 <= j < self.providers@.len() && self.providers@[j].id@ == id@ implies j
                            == i by {
                            if j < i {
                                assert(self.providers@[j].id@ != self.providers@[i as int].id@);
                            } else if j > i {
                                assert(self.providers@[i as int].id@ != self.providers@[j].id@);
                            }
                        }
                    }
                }
                return Some(i);
            }
            i += 1;
        }
        None
    }

    /// Checks that the current provider, if set, exists.
    pub fn validate(&self) -> (r: Result<(), AppError>)
        ensures
            r is Ok <==> self.current_valid(),
            r matches Err(e) ==> e is Validation,
    {
        match &self.current_provider_id {
            None => Ok(()),
            Some(c) => match self.find_provider(c.as_str()) {
                Some(_) => Ok(()),
                None => Err(AppError::Validation(c.clone())),
            },
        }
    }

    /// Makes `id` the current provider; an unknown id is an error and changes nothing.
    pub fn switch_to(&mut self, id: &str) -> (r: Result<usize, AppError>)
        ensures
            r is Ok <==> has_provider(old(self).providers@, id@),
            final(self).providers@ == old(self).providers@,
            old(self).wf() && r is Ok ==> final(self).wf(),
            r is Err ==> final(self).wf() == old(self).wf(),
            r matches Ok(i) ==> i < final(self).providers@.len() && final(self).providers@[i as int].id@
                == id@,
            r is Ok ==> (final(self).current_provider_id matches Some(c) && c@ == id@),
            r matches Err(e) ==> e is NotFound && final(self).current_provider_id
                == old(self).current_provider_id,
    {
        match self.find_provider(id) {
            None => Err(AppError::NotFound(String::from_str(id))),
            Some(i) => {
                self.current_provider_id = Some(String::from_str(id));
                Ok(i)
            },
        }
    }
}

} // verus!
