//! Options of the command line.
use vstd::prelude::*;

verus! {

/// The options that the program was started with.
#[derive(Debug)]
pub struct Opt {
    conf: Option<String>,
}

impl View for Opt {
    type V = Option<Seq<char>>;

    closed spec fn view(&self) -> Option<Seq<char>> {
        match self.conf {
            Some(c) => Some(c@),
            None => None,
        }
    }
}

impl Opt {
    /// The value of the configuration option where none is given.
    pub open spec fn default_conf() -> Seq<char> {
        seq!['1']
    }

    /// Options with the given configuration value, if any.
    pub fn new(conf: Option<String>) -> (r: Self)
        ensures
            r@ == match conf {
                Some(c) => Some(c@),
                None => None,
            },
    {
        Opt { conf }
    }

    /// The configuration value: the one given, or `"1"`.
    pub fn conf(&self) -> (r: String)
        ensures
            r@ == match self@ {
                Some(c) => c,
                None => Opt::default_conf(),
            },
    {
        match &self.conf {
            None => {
                proof {
                    reveal_strlit("1");
                }
                let r = "1".to_owned();
                assert(r@ =~= Opt::default_conf());
                r
            },
            Some(c) => c.clone(),
        }
    }
}

} // verus!
