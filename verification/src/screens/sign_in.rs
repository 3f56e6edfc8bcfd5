pub mod status_selector;

use crate::enums::sign_in_status::SignInStatus;
use crate::models::common::opt_view;
use crate::models::display_picture::copy_bytes;
use crate::screens::contacts::texts_without;
use crate::text::{spec_trim, trim};
use vstd::prelude::*;
use vstd::string::StringExecFns;

verus! {

/// What the user does on the sign-in screen. Choosing a remembered address
/// comes with what was remembered for it: its password and display picture.
pub enum Message {
    EmailInput(String),
    EmailSelected { email: String, stored_password: Option<String>, stored_picture: Option<Vec<u8>> },
    PasswordChanged(String),
    StatusSelected(SignInStatus),
    ForgetMe,
    RememberMeToggled(bool),
    RememberMyPasswordToggled(bool),
    SignIn,
    SignInFailed,
}

/// What the sign-in screen asks of its window.
pub enum Action {
    SignIn,
    PersonalSettings,
    Dialog(String),
}

/// What the sign-in screen asks to be remembered or forgotten.
pub enum Storage {
    /// Remember the address.
    RememberUser(String),
    /// Remember the password for the address.
    SavePassword { email: String, password: String },
    /// Forget the address and its password.
    ForgetUser(String),
}

/// The text of the dialog shown when the address or the password is empty.
pub open spec fn missing_credentials_text() -> Seq<char> {
    "Please type your e-mail address and password in their corresponding forms."@
}

/// The sign-in screen: the address, password and status to sign in with,
/// and what to remember.
pub struct SignIn {
    pub email: Option<String>,
    pub display_picture: Option<Vec<u8>>,
    pub emails: Vec<String>,
    pub password: String,
    pub status: Option<SignInStatus>,
    pub remember_me: bool,
    pub remember_my_password: bool,
    pub signing_in: bool,
}

impl SignIn {
    /// The screen as it opens: the first remembered address is filled in,
    /// with its password (`stored_password`) and display picture
    /// (`stored_picture`) when they were remembered.
    pub fn new(
        emails: Vec<String>,
        stored_password: Option<String>,
        stored_picture: Option<Vec<u8>>,
    ) -> (s: SignIn)
        ensures
            s.emails@ == emails@,
            emails@.len() > 0 ==> opt_view(s.email) == Some(emails@[0]@) && s.remember_me,
            emails@.len() == 0 ==> s.email is None && !s.remember_me,
            emails@.len() > 0 && stored_password is Some ==> s.password@
                == stored_password.unwrap()@ && s.remember_my_password,
            !(emails@.len() > 0 && stored_password is Some) ==> s.password@ == Seq::<char>::empty()
                && !s.remember_my_password,
            emails@.len() > 0 ==> s.display_picture == stored_picture,
            emails@.len() == 0 ==> s.display_picture is None,
            s.status == Some(SignInStatus::Online),
            !s.signing_in,
    {
        let mut email = None;
        let mut password = String::new();
        let mut remember_me = false;
        let mut remember_my_password = false;
        let mut display_picture = None;
        if emails.len() > 0 {
            email = Some(emails[0].clone());
            remember_me = true;
            if let Some(p) = stored_password {
                password = p;
                remember_my_password = true;
            }
            display_picture = stored_picture;
        }
        SignIn {
            email,
            display_picture,
            emails,
            password,
            status: Some(SignInStatus::Online),
            remember_me,
            remember_my_password,
            signing_in: false,
        }
    }

    /// Typing an address forgets the picture shown for the previous one.
    pub fn email_input(&mut self, email: String)
        ensures
            *final(self) == (SignIn { email: final(self).email, display_picture: final(self).display_picture, ..*old(self) }),
            opt_view(final(self).email) == Some(email@),
            final(self).display_picture is None,
            final(self).password == old(self).password,
            final(self).remember_me == old(self).remember_me,
            final(self).remember_my_password == old(self).remember_my_password,
            final(self).signing_in == old(self).signing_in,
            final(self).status == old(self).status,
    {
        self.email = Some(email);
        self.display_picture = None;
    }

    /// Choosing a remembered address fills in its remembered password and
    /// picture, and keeps remembering it.
    pub fn email_selected(
        &mut self,
        email: String,
        stored_password: Option<String>,
        stored_picture: Option<Vec<u8>>,
    )
        ensures
            *final(self) == (SignIn { email: final(self).email, password: final(self).password, remember_me: final(self).remember_me, remember_my_password: final(self).remember_my_password, display_picture: final(self).display_picture, ..*old(self) }),
            opt_view(final(self).email) == Some(email@),
            final(self).remember_me,
            stored_password matches Some(p) ==> final(self).password@ == p@
                && final(self).remember_my_password,
            stored_password is None ==> final(self).password == old(self).password
                && final(self).remember_my_password == old(self).remember_my_password,
            stored_picture is Some ==> final(self).display_picture == stored_picture,
            stored_picture is None ==> final(self).display_picture == old(self).display_picture,
            final(self).signing_in == old(self).signing_in,
            final(self).status == old(self).status,
    {
        if let Some(p) = stored_password {
            self.password = p;
            self.remember_my_password = true;
        }
        if let Some(picture) = stored_picture {
            self.display_picture = Some(picture);
        }
        self.remember_me = true;
        self.email = Some(email);
    }

    /// The remembered addresses, read again after one was forgotten.
    pub fn set_emails(&mut self, emails: Vec<String>)
        ensures
            *final(self) == (SignIn { emails: final(self).emails, ..*old(self) }),
            final(self).emails@ == emails@,
            final(self).email == old(self).email,
            final(self).password == old(self).password,
            final(self).remember_me == old(self).remember_me,
            final(self).remember_my_password == old(self).remember_my_password,
            final(self).signing_in == old(self).signing_in,
    {
        self.emails = emails;
    }

    /// Handles what the user did. The result is what the screen asks of its
    /// window, and what it asks to be remembered or forgotten.
    pub fn update(&mut self, message: Message) -> (r: (Option<Action>, Vec<Storage>))
        ensures
            message matches Message::EmailInput(e) ==> opt_view(final(self).email) == Some(e@)
                && final(self).display_picture is None,
            message matches Message::EmailSelected { email, stored_password, stored_picture } ==> ({
                &&& opt_view(final(self).email) == Some(email@)
                &&& final(self).remember_me
                &&& stored_password matches Some(p) ==> final(self).password@ == p@
                    && final(self).remember_my_password
                &&& stored_password is None ==> final(self).password == old(self).password
                    && final(self).remember_my_password == old(self).remember_my_password
                &&& stored_picture is Some ==> final(self).display_picture == stored_picture
                &&& stored_picture is None ==> final(self).display_picture == old(self).display_picture
            }),
            message is EmailInput ==> *final(self) == (SignIn { email: final(self).email, display_picture: final(self).display_picture, ..*old(self) }),
            message is EmailSelected ==> *final(self) == (SignIn { email: final(self).email, password: final(self).password, remember_me: final(self).remember_me, remember_my_password: final(self).remember_my_password, display_picture: final(self).display_picture, ..*old(self) }),
            message is PasswordChanged ==> *final(self) == (SignIn { password: final(self).password, ..*old(self) }),
            message is StatusSelected ==> *final(self) == (SignIn { status: final(self).status, ..*old(self) }),
            message is RememberMeToggled ==> *final(self) == (SignIn { remember_me: final(self).remember_me, ..*old(self) }),
            message is RememberMyPasswordToggled ==> *final(self) == (SignIn { remember_me: final(self).remember_me, remember_my_password: final(self).remember_my_password, ..*old(self) }),
            message is SignIn ==> *final(self) == (SignIn { email: final(self).email, signing_in: final(self).signing_in, ..*old(self) }),
            message is ForgetMe ==> *final(self) == (SignIn { emails: final(self).emails, email: final(self).email, password: final(self).password, remember_me: final(self).remember_me, remember_my_password: final(self).remember_my_password, display_picture: final(self).display_picture, status: final(self).status, ..*old(self) }),
            message is SignInFailed ==> *final(self) == (SignIn { signing_in: final(self).signing_in, ..*old(self) }),
            message is PasswordChanged || message is RememberMeToggled || message is EmailInput
                || message is EmailSelected || message is SignInFailed ==> r.0 is None
                && r.1@.len() == 0,
            message matches Message::PasswordChanged(p) ==> final(self).password@ == p@
                && final(self).email == old(self).email,
            message matches Message::StatusSelected(st) ==> r.1@.len() == 0 && (
            if st == SignInStatus::PersonalSettings {
                r.0 matches Some(Action::PersonalSettings) && final(self).status == old(
                    self,
                ).status
            } else {
                r.0 is None && final(self).status == Some(st)
            }),
            message matches Message::RememberMeToggled(b) ==> final(self).remember_me == b
                && final(self).remember_my_password == old(self).remember_my_password,
            message matches Message::RememberMyPasswordToggled(b) ==> r.0 is None && r.1@.len()
                == 0 && final(self).remember_my_password == b && final(self).remember_me == (b
                || old(self).remember_me),
            message is SignInFailed ==> !final(self).signing_in,
            message is SignIn ==> ({
                let trimmed = match old(self).email {
                    Some(e) => Some(spec_trim(e@)),
                    None => None,
                };
                &&& opt_view(final(self).email) == trimmed
                &&& if trimmed is None || trimmed.unwrap().len() == 0 || old(self).password@.len()
                    == 0 {
                    &&& r.0 matches Some(Action::Dialog(t)) && t@ == missing_credentials_text()
                    &&& r.1@.len() == 0
                    &&& final(self).signing_in == old(self).signing_in
                } else {
                    &&& r.0 matches Some(Action::SignIn)
                    &&& final(self).signing_in
                    &&& r.1@.len() == (if old(self).remember_me {
                        if old(self).remember_my_password {
                            2int
                        } else {
                            1int
                        }
                    } else {
                        0int
                    })
                    &&& old(self).remember_me ==> (r.1@[0] matches Storage::RememberUser(e) && e@
                        == trimmed.unwrap())
                    &&& old(self).remember_me && old(self).remember_my_password ==> (
                    r.1@[1] matches Storage::SavePassword { email, password } && email@
                        == trimmed.unwrap() && password@ == old(self).password@)
                }
            }),
            message is ForgetMe ==> ({
                &&& r.0 is None
                &&& old(self).email matches Some(e) ==> r.1@.len() == 1 && (
                r.1@[0] matches Storage::ForgetUser(f) && f@ == e@)
                &&& old(self).email is None ==> r.1@.len() == 0 && final(self).emails == old(self).emails
                &&& old(self).email matches Some(e) ==> final(self).emails@.map_values(|p: String| p@)
                    == old(self).emails@.map_values(|p: String| p@).filter(|p: Seq<char>| p != e@)
                &&& opt_view(final(self).email) == Some(Seq::<char>::empty())
                &&& final(self).password@ == Seq::<char>::empty()
                &&& !final(self).remember_me
                &&& !final(self).remember_my_password
                &&& final(self).display_picture is None
                &&& final(self).status == Some(SignInStatus::Online)
            }),
    {
        let mut storage: Vec<Storage> = Vec::new();
        let mut action: Option<Action> = None;
        match message {
            Message::EmailInput(email) => {
                self.email_input(email);
            },
            Message::EmailSelected { email, stored_password, stored_picture } => {
                self.email_selected(email, stored_password, stored_picture);
            },
            Message::PasswordChanged(password) => {
                self.password = password;
            },
            Message::StatusSelected(status) => {
                if status == SignInStatus::PersonalSettings {
                    action = Some(Action::PersonalSettings);
                } else {
                    self.status = Some(status);
                }
            },
            Message::RememberMeToggled(remember_me) => {
                self.remember_me = remember_me;
            },
            Message::RememberMyPasswordToggled(remember_my_password) => {
                if remember_my_password {
                    self.remember_me = true;
                }
                self.remember_my_password = remember_my_password;
            },
            Message::SignIn => {
                let trimmed = match &self.email {
                    Some(e) => Some(trim(e.as_str())),
                    None => None,
                };
                self.email = trimmed;
                let missing = match &self.email {
                    Some(e) => e.as_str().is_empty(),
                    None => true,
                } || self.password.as_str().is_empty();
                if missing {
                    action = Some(
                        Action::Dialog(
                            String::from_str(
                                "Please type your e-mail address and password in their corresponding forms.",
                            ),
                        ),
                    );
                } else {
                    self.signing_in = true;
                    if self.remember_me {
                        if let Some(e) = &self.email {
                            storage.push(Storage::RememberUser(e.clone()));
                            if self.remember_my_password {
                                storage.push(
                                    Storage::SavePassword {
                                        email: e.clone(),
                                        password: self.password.clone(),
                                    },
                                );
                            }
                        }
                    }
                    action = Some(Action::SignIn);
                }
            },
            Message::ForgetMe => {
                if let Some(e) = &self.email {
                    storage.push(Storage::ForgetUser(e.clone()));
                    self.emails = texts_without(&self.emails, e);
                }
                self.email = Some(String::new());
                self.password = String::new();
                self.remember_me = false;
                self.remember_my_password = false;
                self.display_picture = None;
                self.status = Some(SignInStatus::Online);
            },
            Message::SignInFailed => {
                self.signing_in = false;
            },
        }
        (action, storage)
    }

    /// What to sign in with: the address (empty when none), the password
    /// and the chosen status.
    pub fn get_sign_in_info(&self) -> (r: (String, String, Option<SignInStatus>))
        ensures
            r.0@ == match self.email {
                Some(e) => e@,
                None => Seq::<char>::empty(),
            },
            r.1@ == self.password@,
            r.2 == self.status,
    {
        (
            match &self.email {
                Some(e) => e.clone(),
                None => String::new(),
            },
            self.password.clone(),
            self.status,
        )
    }
}

} // verus!
