use twilight_core::model::channel::message::ReactionType;
use twilight_core::model::guild::member::{
    Member, MemberDeserializer, MemberIntermediary, MemberMapDeserializer,
    OptionalMemberDeserializer,
};
use twilight_core::model::id::{EmojiId, GuildId, RoleId, UserId};
use twilight_core::model::user::{copy_text, User};

fn user(id: u64, name: &str) -> User {
    User {
        avatar: None,
        bot: false,
        discriminator: 1,
        email: None,
        flags: None,
        id: UserId(id),
        locale: None,
        mfa_enabled: None,
        name: name.to_owned(),
        premium_type: None,
        public_flags: None,
        system: None,
        verified: None,
    }
}

fn fields(id: u64, name: &str) -> MemberIntermediary {
    MemberIntermediary {
        deaf: false,
        hoisted_role: Some(RoleId(2)),
        joined_at: Some("timestamp".to_owned()),
        mute: true,
        nick: Some("twilight".to_owned()),
        premium_since: Some("timestamp".to_owned()),
        roles: Vec::new(),
        user: user(id, name),
    }
}

#[test]
fn member_deserializer_adds_the_guild_id() {
    let member = MemberDeserializer::new(GuildId(1)).complete(fields(3, "twilight"));

    assert_eq!(
        member,
        Member {
            deaf: false,
            guild_id: GuildId(1),
            hoisted_role: Some(RoleId(2)),
            joined_at: Some("timestamp".to_owned()),
            mute: true,
            nick: Some("twilight".to_owned()),
            premium_since: Some("timestamp".to_owned()),
            roles: Vec::new(),
            user: user(3, "twilight"),
        }
    );
}

#[test]
fn optional_member_deserializer_passes_absence_on() {
    let seed = OptionalMemberDeserializer::new(GuildId(4));
    assert_eq!(seed.complete(None), None);
    assert_eq!(seed.complete(Some(fields(3, "a"))).unwrap().guild_id, GuildId(4));
}

#[test]
fn member_map_deserializer_keys_by_user_and_keeps_the_last() {
    let map = MemberMapDeserializer::new(GuildId(1))
        .complete(vec![fields(3, "first"), fields(4, "other"), fields(3, "last")]);

    assert_eq!(map.len(), 2);
    assert_eq!(map[&3].user.name, "last");
    assert_eq!(map[&4].user.name, "other");
    assert_eq!(map[&3].guild_id, GuildId(1));
    assert!(MemberMapDeserializer::new(GuildId(1)).complete(Vec::new()).is_empty());
}

#[test]
fn user_clone_is_equal() {
    let mut first = user(3, "name");
    first.avatar = Some("avatar".to_owned());
    first.email = Some("mail".to_owned());
    first.locale = Some("de".to_owned());

    assert_eq!(first.clone(), first);
    assert_eq!(copy_text(&Some("x".to_owned())), Some("x".to_owned()));
    assert_eq!(copy_text(&None), None);
}

#[test]
fn reaction_types_compare_by_all_attributes() {
    let a = ReactionType::Custom { animated: false, id: EmojiId(1), name: Some("a".to_owned()) };
    let same = ReactionType::Custom { animated: false, id: EmojiId(1), name: Some("a".to_owned()) };
    let animated = ReactionType::Custom { animated: true, id: EmojiId(1), name: Some("a".to_owned()) };
    let unnamed = ReactionType::Custom { animated: false, id: EmojiId(1), name: None };
    let unicode = ReactionType::Unicode { name: "a".to_owned() };

    assert!(a.is_same(&same));
    assert!(!a.is_same(&animated));
    assert!(!a.is_same(&unnamed));
    assert!(unnamed.is_same(&unnamed));
    assert!(!a.is_same(&unicode));
    assert!(!unicode.is_same(&a));
    assert!(unicode.is_same(&ReactionType::Unicode { name: "a".to_owned() }));
    assert!(!unicode.is_same(&ReactionType::Unicode { name: "b".to_owned() }));
}
