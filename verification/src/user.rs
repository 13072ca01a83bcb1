//! The profile of the signed-in user.

use vstd::prelude::*;

verus! {

/// The user's profile as the service reports it.
#[derive(Debug, PartialEq, Eq)]
pub struct UserDetails {
    pub kullanici_adi: String,
    pub kullanici_kodu: String,
    pub ad: String,
    pub soyad: String,
    pub rol: String,
}

/// The view of a `UserDetails`.
pub struct UserDetailsView {
    pub kullanici_adi: Seq<char>,
    pub kullanici_kodu: Seq<char>,
    pub ad: Seq<char>,
    pub soyad: Seq<char>,
    pub rol: Seq<char>,
}

impl UserDetailsView {
    /// The profile with every field empty.
    pub open spec fn empty() -> UserDetailsView {
        UserDetailsView {
            kullanici_adi: Seq::empty(),
            kullanici_kodu: Seq::empty(),
            ad: Seq::empty(),
            soyad: Seq::empty(),
            rol: Seq::empty(),
        }
    }
}

impl UserDetails {
    pub open spec fn view(&self) -> UserDetailsView {
        UserDetailsView {
            kullanici_adi: self.kullanici_adi@,
            kullanici_kodu: self.kullanici_kodu@,
            ad: self.ad@,
            soyad: self.soyad@,
            rol: self.rol@,
        }
    }
}

impl Default for UserDetails {
    fn default() -> (r: Self)
        ensures
            r@ == UserDetailsView::empty(),
    {
        UserDetails {
            kullanici_adi: String::new(),
            kullanici_kodu: String::new(),
            ad: String::new(),
            soyad: String::new(),
            rol: String::new(),
        }
    }
}

impl Clone for UserDetails {
    fn clone(&self) -> (r: Self)
        ensures
            r == *self,
    {
        UserDetails {
            kullanici_adi: self.kullanici_adi.clone(),
            kullanici_kodu: self.kullanici_kodu.clone(),
            ad: self.ad.clone(),
            soyad: self.soyad.clone(),
            rol: self.rol.clone(),
        }
    }
}

/// The view of an optional profile.
pub open spec fn profile_view(p: Option<UserDetails>) -> Option<UserDetailsView> {
    match p {
        Some(d) => Some(d@),
        None => None,
    }
}

} // verus!
