use vstd::prelude::*;

verus! {

/// One redirect: the alias and the address it leads to.
#[derive(Debug, Clone)]
pub struct RedirectDTO {
    pub alias: String,
    pub url: String,
}

impl View for RedirectDTO {
    type V = (Seq<char>, Seq<char>);

    open spec fn view(&self) -> (Seq<char>, Seq<char>) {
        (self.alias@, self.url@)
    }
}

impl PartialEq for RedirectDTO {
    fn eq(&self, o: &RedirectDTO) -> (r: bool) {
        self.alias == o.alias && self.url == o.url
    }
}

impl vstd::std_specs::cmp::PartialEqSpecImpl for RedirectDTO {
    open spec fn obeys_eq_spec() -> bool {
        true
    }

    open spec fn eq_spec(&self, o: &RedirectDTO) -> bool {
        self@ == o@
    }
}

impl RedirectDTO {
    /// A record of `alias` and `url`.
    pub fn new(alias: &str, url: &str) -> (r: Self)
        ensures
            r@ == (alias@, url@),
    {
        RedirectDTO { alias: String::from_str(alias), url: String::from_str(url) }
    }
}

/// Every redirect of the store.
#[derive(Debug, Clone)]
pub struct RedirectListDTO {
    pub redirects: Vec<RedirectDTO>,
}

/// The new address of a redirect.
#[derive(Debug, Clone)]
pub struct UpdateUrlDTO {
    pub url: String,
}

/// The records of a list, as pairs of alias and address.
pub open spec fn rows_of(v: Seq<RedirectDTO>) -> Seq<(Seq<char>, Seq<char>)> {
    v.map_values(|d: RedirectDTO| d@)
}

/// A redirect record as the persistence layer names it.
pub type RedirectObject = RedirectDTO;

/// A list of redirect records as the persistence layer names it.
pub type RedirectObjectList = RedirectListDTO;

/// A new address as the persistence layer names it.
pub type UpdateUrlObject = UpdateUrlDTO;

} // verus!
