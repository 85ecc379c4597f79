use vstd::prelude::*;

verus! {

/// The flavor line the Act action shows, by draw index.
pub open spec fn act_line_spec(i: int) -> Seq<char> {
    if i == 0 {
        "Check: Sans 1 ATK 1 DEF.\nThe easiest enemy. Can only deal 1 damage."@
    } else if i == 1 {
        "You told a joke about a skeleton.\nSans smiled."@
    } else if i == 2 {
        "You asked Sans to stop fighting.\nHe didn't respond."@
    } else if i == 3 {
        "You insulted Sans.\nHe just shrugged."@
    } else {
        "You looked at Sans.\nHe's still smiling."@
    }
}

/// One of the fixed pool of Act flavor lines.
pub fn act_line(i: usize) -> (r: String)
    requires
        i < 5,
    ensures
        r@ == act_line_spec(i as int),
{
    if i == 0 {
        "Check: Sans 1 ATK 1 DEF.\nThe easiest enemy. Can only deal 1 damage.".to_owned()
    } else if i == 1 {
        "You told a joke about a skeleton.\nSans smiled.".to_owned()
    } else if i == 2 {
        "You asked Sans to stop fighting.\nHe didn't respond.".to_owned()
    } else if i == 3 {
        "You insulted Sans.\nHe just shrugged.".to_owned()
    } else {
        "You looked at Sans.\nHe's still smiling.".to_owned()
    }
}

/// The taunt line the enemy opens its turn with, by draw index.
pub open spec fn taunt_line_spec(i: int) -> Seq<char> {
    if i == 0 {
        "heh heh heh..."@
    } else if i == 1 {
        "you're gonna have a bad time."@
    } else if i == 2 {
        "it's a beautiful day outside."@
    } else if i == 3 {
        "birds are singing, flowers are blooming..."@
    } else if i == 4 {
        "on days like these, kids like you..."@
    } else if i == 5 {
        "should be burning in hell."@
    } else if i == 6 {
        "take it easy, kid."@
    } else if i == 7 {
        "don't you have anything better to do?"@
    } else if i == 8 {
        "i'm rooting for ya, kid."@
    } else {
        "geeeeeet dunked on!"@
    }
}

/// One of the fixed pool of enemy taunt lines.
pub fn taunt_line(i: usize) -> (r: String)
    requires
        i < 10,
    ensures
        r@ == taunt_line_spec(i as int),
{
    if i == 0 {
        "heh heh heh...".to_owned()
    } else if i == 1 {
        "you're gonna have a bad time.".to_owned()
    } else if i == 2 {
        "it's a beautiful day outside.".to_owned()
    } else if i == 3 {
        "birds are singing, flowers are blooming...".to_owned()
    } else if i == 4 {
        "on days like these, kids like you...".to_owned()
    } else if i == 5 {
        "should be burning in hell.".to_owned()
    } else if i == 6 {
        "take it easy, kid.".to_owned()
    } else if i == 7 {
        "don't you have anything better to do?".to_owned()
    } else if i == 8 {
        "i'm rooting for ya, kid.".to_owned()
    } else {
        "geeeeeet dunked on!".to_owned()
    }
}

} // verus!
