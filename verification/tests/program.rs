use namaph_multisig::error::NamaphError;
use namaph_multisig::instructions::spend::Spend;
use namaph_multisig::instructions::update_text_topic::UpdateTextTopic;
use namaph_multisig::model::text::TextTopic;
use namaph_multisig::model::treasury::Treasury;
use namaph_multisig::namaph_multisig::{spend, update_text_topic};
use namaph_multisig::pubkey::Pubkey;

#[test]
fn program_spend_forwards() {
    let treasury = Treasury { multisig: Pubkey::new_from_array([1; 32]), authority: Pubkey::new_from_array([2; 32]), name: "t".to_string(), bump: 3 };
    let mut ctx = Spend { treasury, treasury_lamports: 10, authority: Pubkey::new_from_array([2; 32]), to: Pubkey::new_from_array([4; 32]), to_lamports: 0 };
    spend(&mut ctx, 9).unwrap();
    assert_eq!((ctx.treasury_lamports, ctx.to_lamports), (1, 9));
    assert_eq!(spend(&mut ctx, 1).unwrap_err(), NamaphError::NotEnoughBalanceInTreasury);
}

#[test]
fn program_update_text_topic_reads_only_the_body() {
    let topic = TextTopic { multisig: Pubkey::new_from_array([1; 32]), title: "t".to_string(), body: String::new(), authority: Pubkey::new_from_array([2; 32]), bump: 3 };
    let mut ctx = UpdateTextTopic { text_topic: topic, authority: Pubkey::new_from_array([2; 32]) };
    update_text_topic(&mut ctx, Pubkey::new_from_array([9; 32]), "other title".to_string(), "body".to_string()).unwrap();
    assert_eq!(ctx.text_topic.body, "body");
    assert_eq!(ctx.text_topic.title, "t");
}
