use vstd::prelude::*;
use std::sync::atomic::AtomicBool;
use std::sync::Arc;

verus! {

/// The abstract value of a user: its name, which identifies it. Whether the
/// user is online is shared by every handle on it and can change through any
/// of them, so it is not part of this value.
pub struct UsuarioView {
    pub nome: Seq<char>,
}

/// A user of the chat. Two users are the same user when their names are
/// equal. Whether a user is online is held in a flag that every handle on
/// the user shares.
#[derive(Debug)]
pub struct Usuario {
    nome: String,
    online: AtomicBool,
}

impl View for Usuario {
    type V = UsuarioView;

    closed spec fn view(&self) -> UsuarioView {
        UsuarioView { nome: self.nome@ }
    }
}

/// A handle on a user, as the server, commands and messages share it.
pub type RefUsuario = Arc<Usuario>;

/// `Arc::clone`: another handle on the same user, sharing its online flag.
#[verifier::external_body]
pub(crate) fn partilhar(u: &RefUsuario) -> (r: RefUsuario)
    ensures
        r == *u,
{
    Arc::clone(u)
}

/// The abstract values of a list of users, in order.
pub open spec fn vista_usuarios(v: Seq<RefUsuario>) -> Seq<UsuarioView> {
    v.map_values(|u: RefUsuario| u@)
}

/// The names of a list of users, in order.
pub open spec fn nomes(us: Seq<UsuarioView>) -> Seq<Seq<char>> {
    us.map_values(|u: UsuarioView| u.nome)
}

/// The set of names of a list of users: what identifies a group of users,
/// whatever their order and however often a user occurs.
pub open spec fn conjunto(us: Seq<UsuarioView>) -> Set<Seq<char>> {
    nomes(us).to_set()
}

impl Usuario {
    /// A new user, online.
    pub fn new(nome: String) -> (u: Self)
        ensures
            u@ == (UsuarioView { nome: nome@ }),
    {
        Usuario { nome, online: AtomicBool::new(true) }
    }

    /// The name, as the string the user holds.
    pub closed spec fn nome_texto(&self) -> String {
        self.nome
    }

    pub fn get_nome(&self) -> (r: &String)
        ensures
            r@ == self@.nome,
            *r == self.nome_texto(),
    {
        &self.nome
    }

    /// Whether the user is online: the value last set through any handle on
    /// it, or true if none was set.
    pub fn esta_online(&self) -> bool {
        self.online.load(std::sync::atomic::Ordering::Relaxed)
    }

    /// Sets whether the user is online, for every handle on it. The name stays.
    pub fn set_online(&self, v: bool) {
        self.online.store(v, std::sync::atomic::Ordering::Relaxed);
    }
}

impl PartialEq for Usuario {
    fn eq(&self, other: &Self) -> (r: bool) {
        self.nome == other.nome
    }
}

impl vstd::std_specs::cmp::PartialEqSpecImpl for Usuario {
    open spec fn obeys_eq_spec() -> bool {
        true
    }

    open spec fn eq_spec(&self, other: &Usuario) -> bool {
        self@.nome == other@.nome
    }
}

impl Eq for Usuario {}

/// `<String as Hash>::hash` feeds the string's bytes to the hasher; what the
/// hasher then holds is not stated, only that the call may be made.
pub assume_specification<H: std::hash::Hasher>[ <String as std::hash::Hash>::hash::<H> ](
    s: &String,
    state: &mut H,
);

/// A user hashes as its name, so that equal users hash alike.
impl std::hash::Hash for Usuario {
    fn hash<H: std::hash::Hasher>(&self, state: &mut H) {
        self.nome.hash(state);
    }
}

/// Whether one of the users has the given name.
pub fn contem_nome(v: &Vec<RefUsuario>, nome: &String) -> (r: bool)
    ensures
        r == conjunto(vista_usuarios(v@)).contains(nome@),
{
    let ghost ns = nomes(vista_usuarios(v@));
    let mut i: usize = 0;
    while i < v.len()
        invariant
            i <= v@.len(),
            ns == nomes(vista_usuarios(v@)),
            forall|j: int| 0 <= j < i ==> #[trigger] ns[j] != nome@,
        decreases v@.len() - i,
    {
        assert(ns[i as int] == v@[i as int]@.nome);
        if *v[i].get_nome() == *nome {
            assert(ns.contains(nome@));
            return true;
        }
        i = i + 1;
    }
    assert(!ns.contains(nome@));
    false
}

/// Whether every name among the users of `a` is among those of `b`.
fn contido(a: &Vec<RefUsuario>, b: &Vec<RefUsuario>) -> (r: bool)
    ensures
        r == conjunto(vista_usuarios(a@)).subset_of(conjunto(vista_usuarios(b@))),
{
    let ghost na = nomes(vista_usuarios(a@));
    let mut i: usize = 0;
    while i < a.len()
        invariant
            i <= a@.len(),
            na == nomes(vista_usuarios(a@)),
            forall|j: int| 0 <= j < i ==> conjunto(vista_usuarios(b@)).contains(#[trigger] na[j]),
        decreases a@.len() - i,
    {
        assert(na[i as int] == a@[i as int]@.nome);
        if !contem_nome(b, a[i].get_nome()) {
            assert(conjunto(vista_usuarios(a@)).contains(na[i as int]));
            return false;
        }
        i = i + 1;
    }
    true
}

/// Whether the two lists name the same set of users.
pub fn mesmo_conjunto(a: &Vec<RefUsuario>, b: &Vec<RefUsuario>) -> (r: bool)
    ensures
        r == (conjunto(vista_usuarios(a@)) == conjunto(vista_usuarios(b@))),
{
    let r = contido(a, b) && contido(b, a);
    if r {
        assert(conjunto(vista_usuarios(a@)) =~= conjunto(vista_usuarios(b@)));
    }
    r
}

} // verus!
