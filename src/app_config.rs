use vstd::prelude::*;
use vstd::string::StringExecFns;

verus! {

/// Where the backend lives.
pub struct AppConfig {
    url: String,
}

impl View for AppConfig {
    type V = Seq<char>;

    closed spec fn view(&self) -> Seq<char> {
        self.url@
    }
}

impl AppConfig {
    pub fn build() -> (r: AppConfig)
        ensures
            r@ == "https://just-drink.app"@,
    {
        AppConfig { url: String::from_str("https://just-drink.app") }
    }

    pub fn get_url(&self) -> (r: String)
        ensures
            r@ == self@,
    {
        self.url.clone()
    }
}

} // verus!
