//! Models of foreign servers: the configuration a reader or writer is
//! created from (its kind and its options, such as protocol, host, port).

use vstd::prelude::*;

verus! {

/// Kind of a prebuilt server object.
#[derive(Clone, Copy, PartialEq, Eq, Structural, Debug)]
pub enum ServerType {
    SourceNet,
    SinkNet,
}

/// Key/value options of a server (`PROTOCOL`, `REMOTE_HOST`, ...).
#[derive(Debug)]
pub struct Options {
    pub entries: Vec<(String, String)>,
}

impl View for Options {
    type V = Seq<(Seq<char>, Seq<char>)>;

    open spec fn view(&self) -> Seq<(Seq<char>, Seq<char>)> {
        self.entries@.map_values(|p: (String, String)| (p.0@, p.1@))
    }
}

impl Options {
    pub fn new(entries: Vec<(String, String)>) -> (r: Self)
        ensures
            r@ == entries@.map_values(|p: (String, String)| (p.0@, p.1@)),
    {
        Options { entries }
    }

    pub fn eq_options(&self, other: &Self) -> (r: bool)
        ensures
            r == (self@ == other@),
    {
        if self.entries.len() != other.entries.len() {
            assert(self@.len() != other@.len());
            return false;
        }
        let mut i: usize = 0;
        while i < self.entries.len()
            invariant
                i <= self.entries@.len(),
                self.entries@.len() == other.entries@.len(),
                forall|j: int| 0 <= j < i ==> #[trigger] self@[j] == other@[j],
            decreases self.entries.len() - i,
        {
            let a = &self.entries[i];
            let b = &other.entries[i];
            if !(a.0 == b.0 && a.1 == b.1) {
                assert(self@[i as int] != other@[i as int]);
                return false;
            }
            assert(self@[i as int] == other@[i as int]);
            i += 1;
        }
        assert(self@ =~= other@);
        true
    }
}

impl Clone for Options {
    fn clone(&self) -> (r: Self)
        ensures
            r@ == self@,
    {
        let mut entries: Vec<(String, String)> = Vec::new();
        let mut i: usize = 0;
        while i < self.entries.len()
            invariant
                i <= self.entries.len(),
                entries@ =~= self.entries@.subrange(0, i as int),
            decreases self.entries.len() - i,
        {
            let p = &self.entries[i];
            entries.push((p.0.clone(), p.1.clone()));
            i += 1;
        }
        proof {
            assert(entries@ =~= self.entries@);
        }
        Options { entries }
    }
}

/// Mathematical model of a [`ServerModel`].
pub struct ServerModelModel {
    pub server_type: ServerType,
    pub options: Seq<(Seq<char>, Seq<char>)>,
}

/// The configuration a foreign server is created from.
#[derive(Debug)]
pub struct ServerModel {
    pub server_type: ServerType,
    pub options: Options,
}

impl View for ServerModel {
    type V = ServerModelModel;

    open spec fn view(&self) -> ServerModelModel {
        ServerModelModel { server_type: self.server_type, options: self.options@ }
    }
}

impl ServerModel {
    pub fn new(server_type: ServerType, options: Options) -> (r: Self)
        ensures
            r@ == (ServerModelModel { server_type, options: options@ }),
    {
        ServerModel { server_type, options }
    }

    pub fn server_type(&self) -> (r: ServerType)
        ensures
            r == self@.server_type,
    {
        self.server_type
    }

    pub fn options(&self) -> (r: &Options)
        ensures
            r@ == self@.options,
    {
        &self.options
    }

    pub fn eq_model(&self, other: &Self) -> (r: bool)
        ensures
            r == (self@ == other@),
    {
        self.server_type == other.server_type && self.options.eq_options(&other.options)
    }
}

impl Clone for ServerModel {
    fn clone(&self) -> (r: Self)
        ensures
            r@ == self@,
    {
        ServerModel { server_type: self.server_type, options: self.options.clone() }
    }
}

} // verus!
